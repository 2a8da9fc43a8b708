//! The Intel HEX decoder: a two-pass parser that turns the text of a
//! firmware image file into an addressed byte buffer.
//!
//! Each line has the shape `:BBAAAATT[DD...]CC`, hex digit pairs: a byte
//! count, a 16-bit address, a record type, the data bytes, a checksum. The
//! first pass sizes the output buffer: extended-address records (types 2
//! and 4) move the base address, and each data record (type 0) extends the
//! needed size to the end of its data. The second pass fills a buffer of
//! that size — erased flash, `0xff`, wherever no record writes — by
//! replaying the base-address tracking and copying each data record to
//! `base + address`.
//!
//! As the format's consumers expect, record types other than 0, 2 and 4 are
//! skipped without effect — the end-of-file record too — and checksum bytes
//! are not validated. A malformed hex digit or a truncated line fails the
//! whole decode with [`StkError::ParseHexFileError`]; no partial buffer is
//! returned. Addresses are held to 32 bits: an image whose extent would
//! pass `0xffff_ffff` is likewise rejected.

use vstd::prelude::*;
use vstd::string::StrSliceExecFns;
use crate::StkError;
use crate::orchestrator::ERASED;

verus! {

/// The value of one hex digit; `None` where the character is no hex digit.
pub open spec fn hex_digit_val(c: char) -> Option<u8> {
    let v: u32 = c as u32;
    if 0x30 <= v <= 0x39 {
        Some((v - 0x30) as u8)
    } else if 0x41 <= v <= 0x46 {
        Some((v - 0x41 + 10) as u8)
    } else if 0x61 <= v <= 0x66 {
        Some((v - 0x61 + 10) as u8)
    } else {
        None
    }
}

/// The digit's value where there is one; zero elsewhere.
pub open spec fn digit_or_zero(c: char) -> nat {
    match hex_digit_val(c) {
        Some(d) => d as nat,
        None => 0,
    }
}

/// The numeric value of a run of hex digits, most significant first.
pub open spec fn hex_field_val(s: Seq<char>) -> nat
    decreases s.len(),
{
    if s.len() == 0 {
        0
    } else {
        hex_field_val(s.drop_last()) * 16 + digit_or_zero(s.last())
    }
}

/// A parseable hex field: non-empty, hex digits throughout, and a value
/// that fits 32 bits.
pub open spec fn hex_field_ok(s: Seq<char>) -> bool {
    &&& s.len() >= 1
    &&& forall|i: int| 0 <= i < s.len() ==> #[trigger] hex_digit_val(s[i]) is Some
    &&& hex_field_val(s) <= 0xffff_ffff
}

/// A field's value never falls when more digits follow.
pub proof fn lemma_hex_prefix_le(s: Seq<char>, i: int)
    requires
        0 <= i <= s.len(),
    ensures
        hex_field_val(s.take(i)) <= hex_field_val(s),
    decreases s.len() - i,
{
    if i < s.len() {
        lemma_hex_prefix_le(s, i + 1);
        assert(s.take(i + 1).drop_last() =~= s.take(i));
        assert(hex_field_val(s.take(i + 1)) == hex_field_val(s.take(i)) * 16 + digit_or_zero(
            s.take(i + 1).last(),
        ));
    } else {
        assert(s.take(i) =~= s);
    }
}

/// Executable hex digit table.
pub fn hex_digit(c: char) -> (r: Option<u8>)
    ensures
        r == hex_digit_val(c),
{
    let v: u32 = c as u32;
    if 0x30 <= v && v <= 0x39 {
        Some((v - 0x30) as u8)
    } else if 0x41 <= v && v <= 0x46 {
        Some((v - 0x41 + 10) as u8)
    } else if 0x61 <= v && v <= 0x66 {
        Some((v - 0x61 + 10) as u8)
    } else {
        None
    }
}

/// Parses the characters `[from, to)` of a line as one big-endian hex
/// field, exactly when that field is parseable.
fn parse_field(line: &Vec<char>, from: usize, to: usize) -> (r: Option<u32>)
    requires
        from <= to <= line@.len(),
    ensures
        match r {
            Some(v) => hex_field_ok(line@.subrange(from as int, to as int)) && v
                == hex_field_val(line@.subrange(from as int, to as int)),
            None => !hex_field_ok(line@.subrange(from as int, to as int)),
        },
{
    let ghost field = line@.subrange(from as int, to as int);
    if from == to {
        return None;
    }
    let mut acc: u64 = 0;
    let mut i: usize = from;
    while i < to
        invariant
            from <= i <= to <= line@.len(),
            field == line@.subrange(from as int, to as int),
            acc <= 0xffff_ffff,
            acc == hex_field_val(field.take(i - from)),
            forall|k: int| 0 <= k < i - from ==> #[trigger] hex_digit_val(field[k]) is Some,
        decreases to - i,
    {
        match hex_digit(line[i]) {
            None => {
                assert(field[i - from] == line@[i as int]);
                return None;
            },
            Some(d) => {
                proof {
                    assert(field.take(i + 1 - from).drop_last() =~= field.take(i - from));
                    assert(field.take(i + 1 - from).last() == field[i - from]);
                    assert(field[i - from] == line@[i as int]);
                }
                acc = acc * 16 + (d as u64);
                if acc > 0xffff_ffff {
                    proof {
                        lemma_hex_prefix_le(field, i + 1 - from);
                    }
                    return None;
                }
                i = i + 1;
            },
        }
    }
    assert(field.take(to - from) =~= field);
    Some(acc as u32)
}

/// A line's trailing carriage return, dropped where a newline follows.
pub open spec fn strip_cr(l: Seq<char>) -> Seq<char> {
    if l.len() > 0 && l.last() == '\r' {
        l.drop_last()
    } else {
        l
    }
}

/// Splitting the rest of the input into lines, continuing from the lines
/// accumulated so far and the partial line the last newline left open.
pub open spec fn split_lines_from(
    s: Seq<char>,
    lines: Seq<Seq<char>>,
    cur: Seq<char>,
) -> Seq<Seq<char>>
    decreases s.len(),
{
    if s.len() == 0 {
        if cur.len() == 0 {
            lines
        } else {
            lines.push(cur)
        }
    } else if s[0] == '\n' {
        split_lines_from(s.skip(1), lines.push(strip_cr(cur)), Seq::empty())
    } else {
        split_lines_from(s.skip(1), lines, cur.push(s[0]))
    }
}

/// The lines of the input, as `str::lines` yields them: split at each
/// newline, a carriage return directly before a newline dropped, and no
/// final empty line where the input ends with a newline.
pub open spec fn split_lines(s: Seq<char>) -> Seq<Seq<char>> {
    split_lines_from(s, Seq::empty(), Seq::empty())
}

/// The characters of a string, in order.
fn chars_of(s: &str) -> (v: Vec<char>)
    ensures
        v@ == s@,
{
    let n: usize = s.unicode_len();
    let mut v: Vec<char> = Vec::new();
    let mut i: usize = 0;
    while i < n
        invariant
            i <= n,
            n == s@.len(),
            v@ == s@.take(i as int),
        decreases n - i,
    {
        let c: char = s.get_char(i);
        v.push(c);
        assert(v@ =~= s@.take(i + 1));
        i = i + 1;
    }
    assert(v@ =~= s@);
    v
}

/// Splits the characters into lines, as [`split_lines`] says.
fn split_lines_exec(chars: &Vec<char>) -> (lines: Vec<Vec<char>>)
    ensures
        lines.deep_view() == split_lines(chars@),
{
    let mut lines: Vec<Vec<char>> = Vec::new();
    let mut cur: Vec<char> = Vec::new();
    let mut i: usize = 0;
    proof {
        assert(chars@.skip(0) =~= chars@);
        assert(lines.deep_view() =~~= Seq::<Seq<char>>::empty());
        assert(cur@ =~= Seq::<char>::empty());
    }
    while i < chars.len()
        invariant
            i <= chars@.len(),
            split_lines(chars@) == split_lines_from(
                chars@.skip(i as int),
                lines.deep_view(),
                cur@,
            ),
        decreases chars@.len() - i,
    {
        let c: char = chars[i];
        proof {
            assert(chars@.skip(i as int)[0] == chars@[i as int]);
            assert(chars@.skip(i as int).skip(1) =~= chars@.skip(i + 1));
        }
        if c == '\n' {
            let ghost before = cur@;
            if cur.len() > 0 && cur[cur.len() - 1] == '\r' {
                cur.pop();
            }
            assert(cur@ == strip_cr(before));
            let ghost lines_before = lines.deep_view();
            lines.push(cur);
            assert(lines.deep_view() =~~= lines_before.push(strip_cr(before)));
            cur = Vec::new();
            assert(cur@ =~= Seq::<char>::empty());
        } else {
            let ghost before = cur@;
            cur.push(c);
            assert(cur@ == before.push(c));
        }
        i = i + 1;
    }
    assert(chars@.skip(i as int) =~= Seq::<char>::empty());
    if cur.len() > 0 {
        let ghost lines_before = lines.deep_view();
        let ghost last = cur@;
        lines.push(cur);
        assert(lines.deep_view() =~~= lines_before.push(last));
    }
    lines
}

/// A line's byte-count field: two digits after the record mark.
pub open spec fn line_bc(l: Seq<char>) -> nat {
    hex_field_val(l.subrange(1, 3))
}

/// A line's address field: four digits.
pub open spec fn line_addr(l: Seq<char>) -> nat {
    hex_field_val(l.subrange(3, 7))
}

/// A line's record-type field: two digits.
pub open spec fn line_rtype(l: Seq<char>) -> nat {
    hex_field_val(l.subrange(7, 9))
}

/// The value of an extended-address record: the field holding its
/// byte-count many digit pairs.
pub open spec fn line_ext(l: Seq<char>) -> nat {
    hex_field_val(l.subrange(9, 9 + 2 * line_bc(l) as int))
}

/// The data bytes of a data record, one per digit pair.
pub open spec fn line_data(l: Seq<char>) -> Seq<u8> {
    Seq::new(line_bc(l), |i: int| hex_field_val(l.subrange(9 + 2 * i, 11 + 2 * i)) as u8)
}

/// The line is long enough for its header and the three header fields
/// parse.
pub open spec fn header_ok(l: Seq<char>) -> bool {
    &&& l.len() >= 9
    &&& hex_field_ok(l.subrange(1, 3))
    &&& hex_field_ok(l.subrange(3, 7))
    &&& hex_field_ok(l.subrange(7, 9))
}

/// Everything the sizing pass reads of a line parses: the header, and for
/// an extended-address record its value field.
pub open spec fn line_scan_ok(l: Seq<char>) -> bool {
    &&& header_ok(l)
    &&& (line_rtype(l) == 2 || line_rtype(l) == 4) ==> {
        &&& l.len() >= 9 + 2 * line_bc(l)
        &&& hex_field_ok(l.subrange(9, 9 + 2 * line_bc(l) as int))
    }
}

/// Everything either pass reads of a line parses: for a data record also
/// each of its digit pairs. The checksum is never read, so it is not held
/// to anything.
pub open spec fn line_ok(l: Seq<char>) -> bool {
    &&& line_scan_ok(l)
    &&& line_rtype(l) == 0 ==> {
        &&& l.len() >= 9 + 2 * line_bc(l)
        &&& forall|i: int|
            0 <= i < line_bc(l) ==> hex_field_ok(#[trigger] l.subrange(9 + 2 * i, 11 + 2 * i))
    }
}

/// How a line moves the base address: a type-2 record sets it to sixteen
/// times its value, a type-4 record to its value shifted a full 16 bits up,
/// and every other line leaves it alone.
pub open spec fn upd_base(l: Seq<char>, base: nat) -> nat {
    if line_rtype(l) == 2 {
        line_ext(l) * 16
    } else if line_rtype(l) == 4 {
        line_ext(l) * 0x10000
    } else {
        base
    }
}

/// The base address after the first `n` lines.
pub open spec fn base_after(lines: Seq<Seq<char>>, n: int) -> nat
    decreases n,
{
    if n <= 0 {
        0
    } else {
        upd_base(lines[n - 1], base_after(lines, n - 1))
    }
}

/// The buffer size the first `n` lines ask for: the running maximum, over
/// the data records seen, of base address plus record address plus byte
/// count.
pub open spec fn size_after(lines: Seq<Seq<char>>, n: int) -> nat
    decreases n,
{
    if n <= 0 {
        0
    } else {
        let prev: nat = size_after(lines, n - 1);
        let l = lines[n - 1];
        if line_rtype(l) == 0 {
            let cand: nat = line_addr(l) + base_after(lines, n - 1) + line_bc(l);
            if cand > prev {
                cand as nat
            } else {
                prev
            }
        } else {
            prev
        }
    }
}

/// The buffer size the whole input asks for.
pub open spec fn total_size(lines: Seq<Seq<char>>) -> nat {
    size_after(lines, lines.len() as int)
}

/// One data record's bytes written over a buffer at position `at`.
pub open spec fn write_record(mem: Seq<u8>, at: int, data: Seq<u8>) -> Seq<u8> {
    Seq::new(
        mem.len(),
        |i: int|
            if at <= i < at + data.len() {
                data[i - at]
            } else {
                mem[i]
            },
    )
}

/// The buffer after the first `n` lines: erased flash throughout, then each
/// data record's bytes written at base address plus record address.
pub open spec fn mem_after(lines: Seq<Seq<char>>, n: int, size: nat) -> Seq<u8>
    decreases n,
{
    if n <= 0 {
        Seq::new(size, |i: int| ERASED)
    } else {
        let prev = mem_after(lines, n - 1, size);
        let l = lines[n - 1];
        if line_rtype(l) == 0 {
            write_record(prev, line_addr(l) + base_after(lines, n - 1) as int, line_data(l))
        } else {
            prev
        }
    }
}

/// The buffer the whole input decodes to.
pub open spec fn image_of(lines: Seq<Seq<char>>) -> Seq<u8> {
    mem_after(lines, lines.len() as int, total_size(lines))
}

/// A decodable input: every line parses as far as it is read, and the
/// buffer asked for stays within 32-bit addressing.
pub open spec fn hex_ok(lines: Seq<Seq<char>>) -> bool {
    &&& forall|i: int| 0 <= i < lines.len() ==> line_ok(#[trigger] lines[i])
    &&& total_size(lines) <= 0xffff_ffff
}

/// The size a prefix of the input asks for never shrinks as lines follow.
pub proof fn lemma_size_monotone(lines: Seq<Seq<char>>, i: int, j: int)
    requires
        0 <= i <= j,
    ensures
        size_after(lines, i) <= size_after(lines, j),
    decreases j - i,
{
    if i < j {
        lemma_size_monotone(lines, i, j - 1);
    }
}

/// The buffer keeps its size as records are written over it.
pub proof fn lemma_mem_len(lines: Seq<Seq<char>>, n: int, size: nat)
    requires
        n >= 0,
    ensures
        mem_after(lines, n, size).len() == size,
    decreases n,
{
    if n > 0 {
        lemma_mem_len(lines, n - 1, size);
    }
}

/// A two-digit field holds one byte.
pub proof fn lemma_two_digit_bound(s: Seq<char>)
    requires
        s.len() == 2,
    ensures
        hex_field_val(s) <= 255,
{
    assert(digit_or_zero(s.last()) <= 15);
    assert(digit_or_zero(s.drop_last().last()) <= 15);
    assert(s.drop_last().drop_last() =~= Seq::<char>::empty());
    assert(hex_field_val(s.drop_last()) == hex_field_val(s.drop_last().drop_last()) * 16
        + digit_or_zero(s.drop_last().last()));
}

/// The sizing pass: walks the lines once, tracks the base address, and
/// computes the buffer size the input asks for — exactly when everything
/// this pass reads parses.
fn compute_size(lines: &Vec<Vec<char>>) -> (r: Result<u64, StkError>)
    ensures
        ({
            let ls = lines.deep_view();
            match r {
                Ok(size) => {
                    &&& forall|i: int| 0 <= i < ls.len() ==> line_scan_ok(#[trigger] ls[i])
                    &&& size == total_size(ls)
                },
                Err(e) => {
                    &&& e == StkError::ParseHexFileError
                    &&& !(forall|i: int| 0 <= i < ls.len() ==> line_scan_ok(#[trigger] ls[i]))
                },
            }
        }),
{
    let ghost ls = lines.deep_view();
    let mut base: u64 = 0;
    let mut size: u64 = 0;
    let mut i: usize = 0;
    while i < lines.len()
        invariant
            ls == lines.deep_view(),
            i <= ls.len(),
            forall|k: int| 0 <= k < i ==> line_scan_ok(#[trigger] ls[k]),
            base == base_after(ls, i as int),
            size == size_after(ls, i as int),
            base < 0x1_0000_0000_0000,
            size < 0x2_0000_0000_0000,
        decreases ls.len() - i,
    {
        let line: &Vec<char> = &lines[i];
        proof {
            assert(ls[i as int] =~= line@);
        }
        if line.len() < 9 {
            return Err(StkError::ParseHexFileError);
        }
        let bc: u32 = match parse_field(line, 1, 3) {
            Some(v) => v,
            None => { return Err(StkError::ParseHexFileError) },
        };
        let addr: u32 = match parse_field(line, 3, 7) {
            Some(v) => v,
            None => { return Err(StkError::ParseHexFileError) },
        };
        let rt: u32 = match parse_field(line, 7, 9) {
            Some(v) => v,
            None => { return Err(StkError::ParseHexFileError) },
        };
        if rt == 2 || rt == 4 {
            let field_end: u64 = 9 + 2 * (bc as u64);
            if (line.len() as u64) < field_end {
                return Err(StkError::ParseHexFileError);
            }
            let to: usize = field_end as usize;
            let ext: u32 = match parse_field(line, 9, to) {
                Some(v) => v,
                None => { return Err(StkError::ParseHexFileError) },
            };
            base = if rt == 2 {
                (ext as u64) * 16
            } else {
                (ext as u64) * 0x10000
            };
        } else if rt == 0 {
            let cand: u64 = (addr as u64) + base + (bc as u64);
            if cand > size {
                size = cand;
            }
        }
        i = i + 1;
    }
    Ok(size)
}

/// The filling pass: allocates the erased buffer and writes each data
/// record's bytes at base address plus record address — exactly when
/// everything either pass reads parses.
fn fill_buffer(lines: &Vec<Vec<char>>, size: usize) -> (r: Result<Vec<u8>, StkError>)
    requires
        forall|i: int|
            0 <= i < lines.deep_view().len() ==> line_scan_ok(#[trigger] lines.deep_view()[i]),
        size == total_size(lines.deep_view()),
    ensures
        ({
            let ls = lines.deep_view();
            match r {
                Ok(buf) => {
                    &&& forall|i: int| 0 <= i < ls.len() ==> line_ok(#[trigger] ls[i])
                    &&& buf@ == image_of(ls)
                },
                Err(e) => {
                    &&& e == StkError::ParseHexFileError
                    &&& !(forall|i: int| 0 <= i < ls.len() ==> line_ok(#[trigger] ls[i]))
                },
            }
        }),
{
    let ghost ls = lines.deep_view();
    let mut buffer: Vec<u8> = Vec::new();
    while buffer.len() < size
        invariant
            buffer@.len() <= size,
            forall|k: int| 0 <= k < buffer@.len() ==> #[trigger] buffer@[k] == ERASED,
        decreases size - buffer@.len(),
    {
        buffer.push(ERASED);
    }
    assert(buffer@ =~= mem_after(ls, 0, size as nat));
    let mut base: u64 = 0;
    let mut i: usize = 0;
    while i < lines.len()
        invariant
            ls == lines.deep_view(),
            i <= ls.len(),
            size == total_size(ls),
            forall|k: int| 0 <= k < ls.len() ==> line_scan_ok(#[trigger] ls[k]),
            forall|k: int| 0 <= k < i ==> line_ok(#[trigger] ls[k]),
            base == base_after(ls, i as int),
            base < 0x1_0000_0000_0000,
            buffer@ == mem_after(ls, i as int, size as nat),
            buffer@.len() == size,
        decreases ls.len() - i,
    {
        let line: &Vec<char> = &lines[i];
        proof {
            assert(ls[i as int] =~= line@);
        }
        let bc: u32 = match parse_field(line, 1, 3) {
            Some(v) => v,
            None => {
                proof {
                    assert(false);
                }
                return Err(StkError::ParseHexFileError)
            },
        };
        let addr: u32 = match parse_field(line, 3, 7) {
            Some(v) => v,
            None => {
                proof {
                    assert(false);
                }
                return Err(StkError::ParseHexFileError)
            },
        };
        let rt: u32 = match parse_field(line, 7, 9) {
            Some(v) => v,
            None => {
                proof {
                    assert(false);
                }
                return Err(StkError::ParseHexFileError)
            },
        };
        if rt == 2 || rt == 4 {
            let field_end: u64 = 9 + 2 * (bc as u64);
            let line_len: usize = line.len();
            proof {
                assert(line_scan_ok(ls[i as int]));
                assert(line@.len() >= 9 + 2 * line_bc(ls[i as int]));
                assert(field_end <= line_len);
            }
            let to: usize = field_end as usize;
            let ext: u32 = match parse_field(line, 9, to) {
                Some(v) => v,
                None => {
                    proof {
                        assert(false);
                    }
                    return Err(StkError::ParseHexFileError)
                },
            };
            base = if rt == 2 {
                (ext as u64) * 16
            } else {
                (ext as u64) * 0x10000
            };
        } else if rt == 0 {
            let record_end: u64 = 9 + 2 * (bc as u64);
            if (line.len() as u64) < record_end {
                proof {
                    assert(!line_ok(ls[i as int]));
                }
                return Err(StkError::ParseHexFileError);
            }
            let at: u64 = (addr as u64) + base;
            proof {
                assert(size_after(ls, i + 1) >= line_addr(ls[i as int]) + base_after(
                    ls,
                    i as int,
                ) + line_bc(ls[i as int]));
                lemma_size_monotone(ls, i + 1, ls.len() as int);
            }
            let ghost data = line_data(ls[i as int]);
            let mut k: u32 = 0;
            proof {
                assert(write_record(mem_after(ls, i as int, size as nat), at as int, data.take(0))
                    =~= mem_after(ls, i as int, size as nat));
            }
            while k < bc
                invariant
                    ls == lines.deep_view(),
                    ls[i as int] == line@,
                    0 <= i < ls.len(),
                    k <= bc,
                    size == total_size(ls),
                    line_scan_ok(ls[i as int]),
                    line_rtype(ls[i as int]) == 0,
                    bc == line_bc(ls[i as int]),
                    addr == line_addr(ls[i as int]),
                    base == base_after(ls, i as int),
                    at == addr + base,
                    at + bc <= size,
                    line@.len() >= 9 + 2 * bc,
                    line@.len() <= usize::MAX,
                    data == line_data(ls[i as int]),
                    forall|j: int|
                        0 <= j < k ==> hex_field_ok(
                            #[trigger] line@.subrange(9 + 2 * j, 11 + 2 * j),
                        ),
                    buffer@ == write_record(
                        mem_after(ls, i as int, size as nat),
                        at as int,
                        data.take(k as int),
                    ),
                    buffer@.len() == size,
                decreases bc - k,
            {
                proof {
                    assert(9 + 2 * (k as int) + 2 <= 9 + 2 * (bc as int));
                }
                let from: usize = (9 + 2 * (k as u64)) as usize;
                let to: usize = from + 2;
                let b: u32 = match parse_field(line, from, to) {
                    Some(v) => v,
                    None => {
                        proof {
                            let li = ls[i as int];
                            assert(line@.subrange(from as int, to as int) =~= li.subrange(
                                9 + 2 * (k as int),
                                11 + 2 * (k as int),
                            ));
                            assert(!line_ok(ls[i as int]));
                        }
                        return Err(StkError::ParseHexFileError)
                    },
                };
                proof {
                    lemma_two_digit_bound(line@.subrange(from as int, to as int));
                    assert(data[k as int] == hex_field_val(
                        line@.subrange(9 + 2 * (k as int), 11 + 2 * (k as int)),
                    ) as u8);
                }
                let pos: usize = (at + (k as u64)) as usize;
                buffer.set(pos, b as u8);
                proof {
                    assert(buffer@ =~= write_record(
                        mem_after(ls, i as int, size as nat),
                        at as int,
                        data.take(k + 1),
                    ));
                }
                k = k + 1;
            }
            proof {
                assert(data.take(bc as int) =~= data);
                assert(buffer@ == mem_after(ls, i + 1, size as nat));
            }
        }
        i = i + 1;
    }
    Ok(buffer)
}

/// Decodes an Intel HEX image into its addressed byte buffer, as the
/// decoding model states it: where every line of the input parses as far
/// as the decoder reads it and the image stays within 32-bit addressing,
/// the buffer sized and filled by the records; on any malformed or
/// truncated line, and on an oversized image, a parse error and no buffer.
pub fn hex_to_buffer(hex_string: &String) -> (r: Result<Vec<u8>, StkError>)
    ensures
        ({
            let ls = split_lines(hex_string@);
            match r {
                Ok(buf) => hex_ok(ls) && buf@ == image_of(ls),
                Err(e) => e == StkError::ParseHexFileError && !hex_ok(ls),
            }
        }),
{
    let chars: Vec<char> = chars_of(hex_string.as_str());
    let lines: Vec<Vec<char>> = split_lines_exec(&chars);
    let size64: u64 = match compute_size(&lines) {
        Ok(v) => v,
        Err(e) => { return Err(e) },
    };
    if size64 > 0xffff_ffff {
        return Err(StkError::ParseHexFileError);
    }
    let size: usize = size64 as usize;
    fill_buffer(&lines, size)
}

/// An address never covered by a data record reads as erased flash: the
/// first `n` lines leave `pos` untouched where no data record among them
/// covers it.
proof fn lemma_mem_untouched(ls: Seq<Seq<char>>, n: int, size: nat, pos: int)
    requires
        0 <= n <= ls.len(),
        0 <= pos < size,
        forall|i: int|
            0 <= i < n && line_rtype(#[trigger] ls[i]) == 0 ==> !(line_addr(ls[i]) + base_after(
                ls,
                i,
            ) <= pos < line_addr(ls[i]) + base_after(ls, i) + line_bc(ls[i])),
    ensures
        mem_after(ls, n, size)[pos] == ERASED,
    decreases n,
{
    if n > 0 {
        lemma_mem_untouched(ls, n - 1, size, pos);
        lemma_mem_len(ls, n - 1, size);
        assert(!(line_rtype(ls[n - 1]) == 0 && line_addr(ls[n - 1]) + base_after(ls, n - 1) <= pos
            < line_addr(ls[n - 1]) + base_after(ls, n - 1) + line_bc(ls[n - 1])));
    }
}

/// An address never covered by a data record reads as erased flash.
pub proof fn lemma_unwritten_byte_erased(ls: Seq<Seq<char>>, pos: int)
    requires
        0 <= pos < total_size(ls),
        forall|i: int|
            0 <= i < ls.len() && line_rtype(#[trigger] ls[i]) == 0 ==> !(line_addr(ls[i])
                + base_after(ls, i) <= pos < line_addr(ls[i]) + base_after(ls, i) + line_bc(
                ls[i],
            )),
    ensures
        image_of(ls)[pos] == ERASED,
{
    lemma_mem_untouched(ls, ls.len() as int, total_size(ls), pos);
}

} // verus!

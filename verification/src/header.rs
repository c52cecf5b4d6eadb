//! The flag-driven header formatter.
//!
//! [`header_with_flags`] renders the metadata of one record — prefix, level,
//! date and time, file and line — as the text prepended to the message. The
//! flags control only which elements appear; the order is fixed: prefix
//! (unless `L_MSG_PREFIX` moves it), level, date, time, file and line,
//! moved prefix. [`spec_header`] states the exact output.

use crate::decimal::dec_digits;
use crate::decimal::padded_dec;
use crate::decimal::u32_dec;
use crate::decimal::u32_dec_pad;
use crate::flags::Flag;
use crate::flags::L_DATE;
use crate::flags::L_LEVEL;
use crate::flags::L_LONG_FILE;
use crate::flags::L_MICROSECONDS;
use crate::flags::L_MSG_PREFIX;
use crate::flags::L_SHORT_FILE;
use crate::flags::L_TIME;
use crate::flags::L_UTC;
use crate::level::Level;
use crate::timestamp::CivilTime;
use crate::timestamp::Timestamp;
use vstd::prelude::*;

verus! {

/// The level's canonical name, padded with spaces to exactly width 5.
pub open spec fn spec_level_text(l: Level) -> Seq<char> {
    match l {
        Level::Error => seq!['E', 'R', 'R', 'O', 'R'],
        Level::Warn => seq!['W', 'A', 'R', 'N', ' '],
        Level::Info => seq!['I', 'N', 'F', 'O', ' '],
        Level::Debug => seq!['D', 'E', 'B', 'U', 'G'],
        Level::Trace => seq!['T', 'R', 'A', 'C', 'E'],
    }
}

/// Every padded level name is exactly 5 characters wide.
pub proof fn lemma_level_text_width(l: Level)
    ensures
        spec_level_text(l).len() == 5,
{
}

/// The suffix of `f` after its last `'/'`: all of `f` when it holds no
/// `'/'`, empty when it ends in one.
pub open spec fn tail_after_slash(f: Seq<char>) -> Seq<char>
    decreases f.len(),
{
    if f.len() == 0 {
        f
    } else if f[f.len() - 1] == '/' {
        Seq::empty()
    } else {
        tail_after_slash(f.drop_last()) + seq![f[f.len() - 1]]
    }
}

/// The final path component of `f`: the suffix after the last separator,
/// or `f` itself when it has none. When that leaves nothing — an empty
/// path, or one ending in a separator — the placeholder `???` stands in.
pub open spec fn spec_short_file(f: Seq<char>) -> Seq<char> {
    if tail_after_slash(f).len() == 0 {
        seq!['?', '?', '?']
    } else {
        tail_after_slash(f)
    }
}

/// A path without separators is its own final component.
pub proof fn lemma_short_file_no_slash(f: Seq<char>)
    requires
        f.len() > 0,
        forall|j: int| 0 <= j < f.len() ==> f[j] != '/',
    ensures
        spec_short_file(f) == f,
{
    lemma_tail_after_slash_is_suffix(f, 0);
    assert(f.subrange(0, f.len() as int) =~= f);
}

/// `tail_after_slash(f)` is the suffix of `f` from `i`, whenever nothing at
/// or after `i` is a slash and `i` is either the start or just past one.
proof fn lemma_tail_after_slash_is_suffix(f: Seq<char>, i: int)
    requires
        0 <= i <= f.len(),
        forall|j: int| i <= j < f.len() ==> f[j] != '/',
        i == 0 || f[i - 1] == '/',
    ensures
        tail_after_slash(f) == f.subrange(i, f.len() as int),
    decreases f.len(),
{
    if f.len() == 0 {
        assert(f.subrange(0, 0) =~= f);
    } else if i == f.len() {
        assert(f[f.len() - 1] == '/');
        assert(f.subrange(i, f.len() as int) =~= Seq::<char>::empty());
    } else {
        assert(f[f.len() - 1] != '/');
        let d = f.drop_last();
        lemma_tail_after_slash_is_suffix(d, i);
        assert(d.subrange(i, d.len() as int) =~= f.subrange(i, f.len() as int).drop_last());
        assert(tail_after_slash(f) =~= f.subrange(i, f.len() as int));
    }
}

/// Executable final-component extraction, equal to [`spec_short_file`].
pub fn short_file_name(f: &str) -> (r: String)
    ensures
        r@ =~= spec_short_file(f@),
{
    let n = f.unicode_len();
    let mut i: usize = n;
    while i > 0 && f.get_char(i - 1) != '/'
        invariant
            i <= n == f@.len(),
            forall|j: int| i <= j < n ==> f@[j] != '/',
        decreases i,
    {
        i = i - 1;
    }
    proof {
        lemma_tail_after_slash_is_suffix(f@, i as int);
    }
    if i == n {
        proof {
            reveal_strlit("???");
        }
        "???".to_owned()
    } else {
        let s = f.substring_char(i, n);
        s.to_owned()
    }
}

/// The prefix at the front of the header, unless `L_MSG_PREFIX` moves it.
pub open spec fn front_prefix_seg(flag: Flag, prefix: Seq<char>) -> Seq<char> {
    if flag & L_MSG_PREFIX == 0 {
        prefix
    } else {
        Seq::empty()
    }
}

/// The prefix at the back of the header, when `L_MSG_PREFIX` moves it there.
pub open spec fn back_prefix_seg(flag: Flag, prefix: Seq<char>) -> Seq<char> {
    if flag & L_MSG_PREFIX != 0 {
        prefix
    } else {
        Seq::empty()
    }
}

/// The level element: the padded level name and one space.
pub open spec fn level_seg(flag: Flag, level: Level) -> Seq<char> {
    if flag & L_LEVEL != 0 {
        spec_level_text(level) + seq![' ']
    } else {
        Seq::empty()
    }
}

/// The date element: `YYYY/MM/DD` and one space.
pub open spec fn date_seg(flag: Flag, c: CivilTime) -> Seq<char> {
    if flag & L_DATE != 0 {
        padded_dec(c.year as nat, 4) + seq!['/'] + padded_dec(c.month as nat, 2) + seq!['/']
            + padded_dec(c.day as nat, 2) + seq![' ']
    } else {
        Seq::empty()
    }
}

/// The fractional-seconds element: a dot and six zero-padded digits of
/// microseconds.
pub open spec fn frac_seg(flag: Flag, micro: u32) -> Seq<char> {
    if flag & L_MICROSECONDS != 0 {
        seq!['.'] + padded_dec(micro as nat, 6)
    } else {
        Seq::empty()
    }
}

/// The time element: `HH:MM:SS`, the fraction when asked for, and one
/// space. `L_MICROSECONDS` alone is enough to bring the time in.
pub open spec fn time_seg(flag: Flag, c: CivilTime, micro: u32) -> Seq<char> {
    if flag & (L_TIME | L_MICROSECONDS) != 0 {
        padded_dec(c.hour as nat, 2) + seq![':'] + padded_dec(c.minute as nat, 2) + seq![':']
            + padded_dec(c.second as nat, 2) + frac_seg(flag, micro) + seq![' ']
    } else {
        Seq::empty()
    }
}

/// Date and time together, rendered from the UTC fields when `L_UTC` is
/// set and from the local fields otherwise.
pub open spec fn datetime_seg(flag: Flag, ts: Timestamp) -> Seq<char> {
    date_seg(flag, ts.spec_civil(flag & L_UTC != 0)) + time_seg(
        flag,
        ts.spec_civil(flag & L_UTC != 0),
        ts.micro,
    )
}

/// The source-location element: the target (for `L_LONG_FILE`), the file
/// token — final component under `L_SHORT_FILE`, the full path otherwise —
/// then `:line: `. Absent file information suppresses the whole element,
/// whatever the flags say.
pub open spec fn file_seg(
    flag: Flag,
    target: Seq<char>,
    file: Option<Seq<char>>,
    line: u32,
) -> Seq<char> {
    match file {
        Option::None => Seq::empty(),
        Option::Some(f) => {
            if flag & (L_LONG_FILE | L_SHORT_FILE) != 0 {
                (if flag & L_LONG_FILE != 0 {
                    target + seq![' ']
                } else {
                    Seq::empty()
                }) + (if flag & L_SHORT_FILE != 0 {
                    spec_short_file(f)
                } else {
                    f
                }) + seq![':'] + dec_digits(line as nat) + seq![':', ' ']
            } else {
                Seq::empty()
            }
        },
    }
}

/// The whole header: prefix (unless moved), level, date and time, file and
/// line, and the moved prefix, in this fixed order.
pub open spec fn spec_header(
    target: Seq<char>,
    file: Option<Seq<char>>,
    line: u32,
    level: Level,
    ts: Timestamp,
    flag: Flag,
    prefix: Seq<char>,
) -> Seq<char> {
    front_prefix_seg(flag, prefix) + level_seg(flag, level) + datetime_seg(flag, ts) + file_seg(
        flag,
        target,
        file,
        line,
    ) + back_prefix_seg(flag, prefix)
}

/// With no flag set the header is empty. An empty prefix is assumed: the
/// prefix is governed by `L_MSG_PREFIX` alone, so a configured prefix is
/// emitted even under `L_NONE`.
pub proof fn lemma_flags_none_header(
    target: Seq<char>,
    file: Option<Seq<char>>,
    line: u32,
    level: Level,
    ts: Timestamp,
    prefix: Seq<char>,
)
    requires
        prefix.len() == 0,
    ensures
        spec_header(target, file, line, level, ts, crate::flags::L_NONE, prefix)
            =~= Seq::<char>::empty(),
{
    assert(0u8 & 64u8 == 0u8) by (bit_vector);
    assert(0u8 & 128u8 == 0u8) by (bit_vector);
    assert(0u8 & 1u8 == 0u8) by (bit_vector);
    assert(2u8 | 4u8 == 6u8) by (bit_vector);
    assert(0u8 & 6u8 == 0u8) by (bit_vector);
    assert(8u8 | 16u8 == 24u8) by (bit_vector);
    assert(0u8 & 24u8 == 0u8) by (bit_vector);
    assert(prefix =~= Seq::<char>::empty());
}

/// Asking for microseconds brings the time of day in even when `L_TIME`
/// itself is unset: the time element is then the full `HH:MM:SS.NNNNNN `.
pub proof fn lemma_micro_implies_time(flag: Flag, c: CivilTime, micro: u32)
    requires
        flag & L_MICROSECONDS != 0,
    ensures
        time_seg(flag, c, micro) =~= padded_dec(c.hour as nat, 2) + seq![':'] + padded_dec(
            c.minute as nat,
            2,
        ) + seq![':'] + padded_dec(c.second as nat, 2) + seq!['.'] + padded_dec(micro as nat, 6)
            + seq![' '],
{
    assert(2u8 | 4u8 == 6u8) by (bit_vector);
    assert(flag & 4u8 != 0 ==> flag & 6u8 != 0u8) by (bit_vector);
}

/// `L_MSG_PREFIX` moves the prefix from the first to the last position of
/// the header and changes nothing else: with the bit unset the header is
/// the prefix followed by the prefix-free rest, and setting the bit yields
/// the same rest followed by the prefix.
pub proof fn lemma_msg_prefix_moves(
    target: Seq<char>,
    file: Option<Seq<char>>,
    line: u32,
    level: Level,
    ts: Timestamp,
    flag: Flag,
    prefix: Seq<char>,
)
    requires
        flag & L_MSG_PREFIX == 0,
    ensures
        spec_header(target, file, line, level, ts, flag, prefix) =~= prefix + spec_header(
            target,
            file,
            line,
            level,
            ts,
            flag,
            Seq::empty(),
        ),
        spec_header(target, file, line, level, ts, flag | L_MSG_PREFIX, prefix) =~= spec_header(
            target,
            file,
            line,
            level,
            ts,
            flag,
            Seq::empty(),
        ) + prefix,
{
    let g = flag | L_MSG_PREFIX;
    assert(2u8 | 4u8 == 6u8) by (bit_vector);
    assert(8u8 | 16u8 == 24u8) by (bit_vector);
    assert((flag | 64u8) & 64u8 != 0u8) by (bit_vector);
    assert((flag | 64u8) & 128u8 == flag & 128u8) by (bit_vector);
    assert((flag | 64u8) & 1u8 == flag & 1u8) by (bit_vector);
    assert((flag | 64u8) & 6u8 == flag & 6u8) by (bit_vector);
    assert((flag | 64u8) & 4u8 == flag & 4u8) by (bit_vector);
    assert((flag | 64u8) & 32u8 == flag & 32u8) by (bit_vector);
    assert((flag | 64u8) & 24u8 == flag & 24u8) by (bit_vector);
    assert((flag | 64u8) & 8u8 == flag & 8u8) by (bit_vector);
    assert((flag | 64u8) & 16u8 == flag & 16u8) by (bit_vector);
    assert(level_seg(g, level) == level_seg(flag, level));
    assert(datetime_seg(g, ts) == datetime_seg(flag, ts));
    assert(file_seg(g, target, file, line) == file_seg(flag, target, file, line));
}

/// Absent file information suppresses the whole source-location element,
/// whatever the flags say.
pub proof fn lemma_file_absent(flag: Flag, target: Seq<char>, line: u32)
    ensures
        file_seg(flag, target, Option::None, line) =~= Seq::<char>::empty(),
{
}

/// The view of an optional string slice.
pub open spec fn opt_view(file: Option<&str>) -> Option<Seq<char>> {
    match file {
        Option::None => Option::None,
        Option::Some(f) => Option::Some(f@),
    }
}

/// The level's padded name, as a string.
pub fn level_text(l: Level) -> (r: &'static str)
    ensures
        r@ =~= spec_level_text(l),
{
    proof {
        reveal_strlit("ERROR");
        reveal_strlit("WARN ");
        reveal_strlit("INFO ");
        reveal_strlit("DEBUG");
        reveal_strlit("TRACE");
    }
    match l {
        Level::Error => "ERROR",
        Level::Warn => "WARN ",
        Level::Info => "INFO ",
        Level::Debug => "DEBUG",
        Level::Trace => "TRACE",
    }
}

/// The level element, as a string.
fn level_string(flag: Flag, level: Level) -> (r: String)
    ensures
        r@ =~= level_seg(flag, level),
{
    proof {
        reveal_strlit(" ");
    }
    let mut buf = String::new();
    if flag & L_LEVEL != 0 {
        buf.append(level_text(level));
        buf.append(" ");
    }
    buf
}

/// The date element, as a string.
fn date_string(flag: Flag, c: &CivilTime) -> (r: String)
    ensures
        r@ =~= date_seg(flag, *c),
{
    proof {
        reveal_strlit(" ");
        reveal_strlit("/");
    }
    let mut buf = String::new();
    if flag & L_DATE != 0 {
        let y = u32_dec_pad(c.year as u32, 4);
        buf.append(y.as_str());
        buf.append("/");
        let mo = u32_dec_pad(c.month as u32, 2);
        buf.append(mo.as_str());
        buf.append("/");
        let d = u32_dec_pad(c.day as u32, 2);
        buf.append(d.as_str());
        buf.append(" ");
    }
    buf
}

/// The time element, as a string.
fn time_string(flag: Flag, c: &CivilTime, micro: u32) -> (r: String)
    ensures
        r@ =~= time_seg(flag, *c, micro),
{
    proof {
        reveal_strlit(" ");
        reveal_strlit(":");
        reveal_strlit(".");
    }
    let mut buf = String::new();
    if flag & (L_TIME | L_MICROSECONDS) != 0 {
        let h = u32_dec_pad(c.hour as u32, 2);
        buf.append(h.as_str());
        buf.append(":");
        let mi = u32_dec_pad(c.minute as u32, 2);
        buf.append(mi.as_str());
        buf.append(":");
        let s = u32_dec_pad(c.second as u32, 2);
        buf.append(s.as_str());
        if flag & L_MICROSECONDS != 0 {
            buf.append(".");
            let us = u32_dec_pad(micro, 6);
            buf.append(us.as_str());
        }
        buf.append(" ");
    }
    buf
}

/// The source-location element, as a string.
fn file_string(flag: Flag, target: &str, file: Option<&str>, line: u32) -> (r: String)
    ensures
        r@ =~= file_seg(flag, target@, opt_view(file), line),
{
    proof {
        reveal_strlit(" ");
        reveal_strlit(":");
        reveal_strlit(": ");
    }
    let mut buf = String::new();
    match file {
        Option::Some(f) => {
            if flag & (L_LONG_FILE | L_SHORT_FILE) != 0 {
                if flag & L_LONG_FILE != 0 {
                    buf.append(target);
                    buf.append(" ");
                }
                if flag & L_SHORT_FILE != 0 {
                    let b = short_file_name(f);
                    buf.append(b.as_str());
                } else {
                    buf.append(f);
                }
                buf.append(":");
                let ln = u32_dec(line);
                buf.append(ln.as_str());
                buf.append(": ");
            }
        },
        Option::None => {},
    }
    buf
}

/// Renders the header for one record, exactly as [`spec_header`] states.
pub fn header_with_flags(
    target: &str,
    file: Option<&str>,
    line: u32,
    level: Level,
    now: &Timestamp,
    flag: Flag,
    prefix: &str,
) -> (r: String)
    ensures
        r@ =~= spec_header(target@, opt_view(file), line, level, *now, flag, prefix@),
{
    let mut buf = String::new();

    if flag & L_MSG_PREFIX == 0 {
        buf.append(prefix);
    }

    let lv = level_string(flag, level);
    buf.append(lv.as_str());

    let c = if flag & L_UTC != 0 {
        now.utc
    } else {
        now.local
    };
    let dt = date_string(flag, &c);
    buf.append(dt.as_str());
    let tm = time_string(flag, &c, now.micro);
    buf.append(tm.as_str());

    let fl = file_string(flag, target, file, line);
    buf.append(fl.as_str());

    if flag & L_MSG_PREFIX != 0 {
        buf.append(prefix);
    }
    assert(buf@ =~= spec_header(target@, opt_view(file), line, level, *now, flag, prefix@));

    buf
}

} // verus!

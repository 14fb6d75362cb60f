//! The decisions of the adb I/O benchmark command: which sizes to transfer and how
//! often, which device to use, what to name the transfers, what the payloads are,
//! whether a transfer arrived intact, and how the run ends.
use vstd::prelude::*;
use crate::schema::{
    failure_exit_code, AdbConfig, AdbSizeSpec, ErrorInfo, Status, ERR_CORRECTNESS_CHECK_FAILED, ERR_MULTIPLE_DEVICES,
    ERR_NO_DEVICE,
};
use crate::text::{
    chars_of, char_is_ascii_digit, debug_char, debug_str, decimal, is_ascii_digit, message3,
    message_debug_range, parse_unsigned, parse_unsigned_range, pieces, push_decimal, range_eq,
    ranges_within, render_debug_char, render_debug_str, split_on, split_ranges, trim, trim_range,
    token_ranges, tokens, string_of_range,
};

verus! {

// ---------------------------------------------------------------- comma-separated lists

/// The trimmed non-empty entries among `fields`, in order.
pub open spec fn nonempty_trimmed(fields: Seq<Seq<char>>) -> Seq<Seq<char>>
    decreases fields.len(),
{
    if fields.len() == 0 {
        Seq::<Seq<char>>::empty()
    } else {
        let prev = nonempty_trimmed(fields.drop_last());
        let t = trim(fields.last());
        if t.len() > 0 { prev.push(t) } else { prev }
    }
}

/// The entries of a comma-separated list: split at `,`, trimmed, empty ones dropped.
pub open spec fn list_items(s: Seq<char>) -> Seq<Seq<char>> {
    nonempty_trimmed(split_on(s, ','))
}

/// The bounds of the entries of the comma-separated list `v`.
fn list_item_ranges(v: &Vec<char>) -> (r: Vec<(usize, usize)>)
    ensures
        ranges_within(r@, 0, v@.len() as int),
        pieces(v@, r@) == list_items(v@),
{
    let fields = split_ranges(v, 0, v.len(), ',');
    let ghost fs = split_on(v@.subrange(0, v@.len() as int), ',');
    assert(v@.subrange(0, v@.len() as int) =~= v@);
    let mut r: Vec<(usize, usize)> = Vec::new();
    let mut i: usize = 0;
    assert(pieces(v@, r@) =~= Seq::<Seq<char>>::empty());
    while i < fields.len()
        invariant
            i <= fields@.len(),
            fs == pieces(v@, fields@),
            fs == split_on(v@, ','),
            ranges_within(fields@, 0, v@.len() as int),
            ranges_within(r@, 0, v@.len() as int),
            pieces(v@, r@) == nonempty_trimmed(fs.take(i as int)),
        decreases fields@.len() - i,
    {
        let (a, b) = fields[i];
        assert(fs.take(i + 1).drop_last() =~= fs.take(i as int));
        assert(fs[i as int] == v@.subrange(a as int, b as int));
        let (ta, tb) = trim_range(v, a, b);
        if ta < tb {
            let ghost old_r = r@;
            r.push((ta, tb));
            assert(pieces(v@, r@) =~= pieces(v@, old_r).push(v@.subrange(ta as int, tb as int)));
        }
        i = i + 1;
    }
    assert(fs.take(fields@.len() as int) =~= fs);
    r
}

// ---------------------------------------------------------------- sizes

/// Bytes per unit of a size suffix: `B` bytes, `K` KiB, `M` MiB, `G` GiB, in either case.
pub open spec fn size_unit(c: char) -> Option<nat> {
    if c == 'B' || c == 'b' {
        Some(1)
    } else if c == 'K' || c == 'k' {
        Some(1024)
    } else if c == 'M' || c == 'm' {
        Some(1024 * 1024)
    } else if c == 'G' || c == 'g' {
        Some(1024 * 1024 * 1024)
    } else {
        None
    }
}

/// The meaning of a size token such as `25B`, `25`, `1K`, `10m` or `1G`: after
/// trimming, a positive whole number with an optional unit suffix; its value in
/// bytes, or the message that rejects it (which quotes the token as given).
pub open spec fn size_token(tok: Seq<char>) -> Result<u64, Seq<char>> {
    let t = trim(tok);
    if t.len() == 0 {
        Err("empty size token"@)
    } else if size_unit(t.last()) is None && !is_ascii_digit(t.last()) {
        Err("invalid size suffix "@ + debug_char(t.last()) + " in "@ + debug_str(tok)
            + " (expected B, K, M, G)"@)
    } else {
        let num = if is_ascii_digit(t.last()) { t } else { t.drop_last() };
        let mult: nat = if is_ascii_digit(t.last()) { 1 } else { size_unit(t.last())->0 };
        match parse_unsigned(num, u64::MAX as nat) {
            None => Err("invalid size "@ + debug_str(tok)),
            Some(n) => if n == 0 {
                Err("size "@ + debug_str(tok) + " must be greater than zero"@)
            } else if n * mult > u64::MAX {
                Err("size "@ + debug_str(tok) + " overflows"@)
            } else {
                Ok((n * mult) as u64)
            },
        }
    }
}

/// `size_token` on `v[a..b]`.
fn size_token_range(v: &Vec<char>, a: usize, b: usize) -> (r: Result<u64, String>)
    requires a <= b <= v@.len(),
    ensures
        match size_token(v@.subrange(a as int, b as int)) {
            Ok(n) => r == Ok::<u64, String>(n),
            Err(m) => r is Err && r->Err_0@ == m,
        },
{
    let (ta, tb) = trim_range(v, a, b);
    let ghost t = v@.subrange(ta as int, tb as int);
    if ta == tb {
        return Err(String::from_str("empty size token"));
    }
    let c = v[tb - 1];
    assert(t.last() == c);
    let (end, mult): (usize, u64) = if c == 'B' || c == 'b' {
        (tb - 1, 1)
    } else if c == 'K' || c == 'k' {
        (tb - 1, 1024)
    } else if c == 'M' || c == 'm' {
        (tb - 1, 1024 * 1024)
    } else if c == 'G' || c == 'g' {
        (tb - 1, 1024 * 1024 * 1024)
    } else if char_is_ascii_digit(c) {
        (tb, 1)
    } else {
        let dc = render_debug_char(c);
        let tok = crate::text::string_of_range(v, a, b);
        let dt = render_debug_str(tok.as_str());
        let mut m = message3("invalid size suffix ", dc.as_str(), " in ");
        m.append(dt.as_str());
        m.append(" (expected B, K, M, G)");
        return Err(m);
    };
    assert(v@.subrange(ta as int, end as int) =~= if is_ascii_digit(c) { t } else { t.drop_last() });
    match parse_unsigned_range(v, ta, end, u64::MAX) {
        None => {
            let tok = crate::text::string_of_range(v, a, b);
            let dt = render_debug_str(tok.as_str());
            let mut m = String::from_str("invalid size ");
            m.append(dt.as_str());
            Err(m)
        }
        Some(n) => {
            if n == 0 {
                Err(message_debug_range("size ", v, a, b, " must be greater than zero"))
            } else {
                match n.checked_mul(mult) {
                    Some(total) => Ok(total),
                    None => Err(message_debug_range("size ", v, a, b, " overflows")),
                }
            }
        }
    }
}

/// Parses one size token (see `size_token`).
pub fn parse_size_token(tok: &str) -> (r: Result<u64, String>)
    ensures
        match size_token(tok@) {
            Ok(n) => r == Ok::<u64, String>(n),
            Err(m) => r is Err && r->Err_0@ == m,
        },
{
    let v = chars_of(tok);
    assert(v@.subrange(0, v@.len() as int) =~= tok@);
    size_token_range(&v, 0, v.len())
}


// ---------------------------------------------------------------- iteration overrides

/// The position of the first `c` in `s`, if any.
pub open spec fn index_of(s: Seq<char>, c: char) -> Option<int>
    decreases s.len(),
{
    if s.len() == 0 {
        None
    } else {
        match index_of(s.drop_last(), c) {
            Some(i) => Some(i),
            None => if s.last() == c { Some(s.len() - 1) } else { None },
        }
    }
}

/// A position found in a prefix stays the first position in the whole.
pub proof fn lemma_index_of_prefix(s: Seq<char>, c: char, k: int)
    requires
        0 <= k <= s.len(),
        index_of(s.take(k), c) is Some,
    ensures
        index_of(s, c) == index_of(s.take(k), c),
    decreases s.len() - k,
{
    if k < s.len() {
        assert(s.take(k + 1).drop_last() =~= s.take(k));
        lemma_index_of_prefix(s, c, k + 1);
    } else {
        assert(s.take(k) =~= s);
    }
}

/// What `index_of` finds: the first occurrence, or none at all.
pub proof fn lemma_index_of_facts(s: Seq<char>, c: char)
    ensures
        match index_of(s, c) {
            Some(i) => 0 <= i < s.len() && s[i] == c && forall|j: int| 0 <= j < i ==> s[j] != c,
            None => forall|j: int| 0 <= j < s.len() ==> s[j] != c,
        },
    decreases s.len(),
{
    if s.len() > 0 {
        let p = s.drop_last();
        lemma_index_of_facts(p, c);
        assert forall|j: int| 0 <= j < p.len() implies p[j] == s[j] by {}
    }
}

/// The position of the first `c` in `v[a..b]`, as an index into `v`.
fn find_char(v: &Vec<char>, a: usize, b: usize, c: char) -> (r: Option<usize>)
    requires a <= b <= v@.len(),
    ensures
        match index_of(v@.subrange(a as int, b as int), c) {
            Some(i) => r == Some((a + i) as usize),
            None => r is None,
        },
{
    let ghost s = v@.subrange(a as int, b as int);
    let mut i = a;
    assert(s.take(0) =~= Seq::<char>::empty());
    while i < b
        invariant
            a <= i <= b <= v@.len(),
            s == v@.subrange(a as int, b as int),
            index_of(s.take(i - a), c) is None,
        decreases b - i,
    {
        assert(s.take(i - a + 1).drop_last() =~= s.take(i - a));
        if v[i] == c {
            proof { lemma_index_of_prefix(s, c, i - a + 1); }
            return Some(i);
        }
        i = i + 1;
    }
    assert(s.take(b - a) =~= s);
    None
}

/// The meaning of one `KEY=VALUE` entry of `--iterations`: the size the key names and
/// a positive `u32` count, split at the first `=`; or the message that rejects it.
pub open spec fn iteration_entry(tok: Seq<char>) -> Result<(u64, u32), Seq<char>> {
    match index_of(tok, '=') {
        None => Err("--iterations entry "@ + debug_str(tok) + " must be KEY=VALUE"@),
        Some(e) => match size_token(trim(tok.take(e))) {
            Err(m) => Err(m),
            Ok(bytes) => match parse_unsigned(trim(tok.skip(e + 1)), u32::MAX as nat) {
                None => Err("invalid iteration count in "@ + debug_str(tok)),
                Some(n) => if n == 0 {
                    Err("iteration count in "@ + debug_str(tok) + " must be greater than zero"@)
                } else {
                    Ok((bytes, n as u32))
                },
            },
        },
    }
}

/// The entries of a list read in order; the first entry that fails decides the error.
pub open spec fn iteration_entries(items: Seq<Seq<char>>) -> Result<Seq<(u64, u32)>, Seq<char>>
    decreases items.len(),
{
    if items.len() == 0 {
        Ok(Seq::<(u64, u32)>::empty())
    } else {
        match iteration_entries(items.drop_last()) {
            Err(m) => Err(m),
            Ok(prev) => match iteration_entry(items.last()) {
                Err(m) => Err(m),
                Ok(x) => Ok(prev.push(x)),
            },
        }
    }
}

/// The meaning of the `--iterations` argument: no overrides when absent; otherwise
/// the entries of the comma-separated list, in order.
pub open spec fn iteration_overrides(arg: Option<Seq<char>>) -> Result<Seq<(u64, u32)>, Seq<char>> {
    match arg {
        None => Ok(Seq::<(u64, u32)>::empty()),
        Some(s) => iteration_entries(list_items(s)),
    }
}

/// `iteration_entry` on `v[a..b]`.
fn iteration_entry_range(v: &Vec<char>, a: usize, b: usize) -> (r: Result<(u64, u32), String>)
    requires a <= b <= v@.len(),
    ensures
        match iteration_entry(v@.subrange(a as int, b as int)) {
            Ok(x) => r == Ok::<(u64, u32), String>(x),
            Err(m) => r is Err && r->Err_0@ == m,
        },
{
    let ghost tok = v@.subrange(a as int, b as int);
    proof { lemma_index_of_facts(tok, '='); }
    match find_char(v, a, b, '=') {
        None => Err(message_debug_range("--iterations entry ", v, a, b, " must be KEY=VALUE")),
        Some(e) => {
            assert(tok.take(e - a) =~= v@.subrange(a as int, e as int));
            assert(tok.skip(e - a + 1) =~= v@.subrange(e + 1, b as int));
            let (ka, kb) = trim_range(v, a, e);
            match size_token_range(v, ka, kb) {
                Err(m) => Err(m),
                Ok(bytes) => {
                    let (va, vb) = trim_range(v, e + 1, b);
                    match parse_unsigned_range(v, va, vb, u32::MAX as u64) {
                        None => {
                            let t = crate::text::string_of_range(v, a, b);
                            let dt = render_debug_str(t.as_str());
                            let mut m = String::from_str("invalid iteration count in ");
                            m.append(dt.as_str());
                            Err(m)
                        }
                        Some(n) => {
                            if n == 0 {
                                Err(message_debug_range("iteration count in ", v, a, b, " must be greater than zero"))
                            } else {
                                Ok((bytes, n as u32))
                            }
                        }
                    }
                }
            }
        }
    }
}

/// The overrides of a comma-separated `KEY=VALUE` list, in order.
fn iteration_entries_of(s: &str) -> (r: Result<Vec<(u64, u32)>, String>)
    ensures
        match iteration_entries(list_items(s@)) {
            Ok(x) => r is Ok && r->Ok_0@ == x,
            Err(m) => r is Err && r->Err_0@ == m,
        },
{
    let v = chars_of(s);
    let items = list_item_ranges(&v);
    let ghost its = list_items(v@);
    let mut out: Vec<(u64, u32)> = Vec::new();
    let mut i: usize = 0;
    assert(its.take(0) =~= Seq::<Seq<char>>::empty());
    while i < items.len()
        invariant
            i <= items@.len(),
            its == pieces(v@, items@),
            its == list_items(s@),
            ranges_within(items@, 0, v@.len() as int),
            iteration_entries(its.take(i as int)) == Ok::<Seq<(u64, u32)>, Seq<char>>(out@),
        decreases items@.len() - i,
    {
        let (a, b) = items[i];
        assert(its.take(i + 1).drop_last() =~= its.take(i as int));
        assert(its[i as int] == v@.subrange(a as int, b as int));
        match iteration_entry_range(&v, a, b) {
            Err(m) => {
                proof {
                    assert(iteration_entries(its.take(i + 1)) == Err::<Seq<(u64, u32)>, Seq<char>>(m@));
                    lemma_entries_error_persists(its, i + 1);
                }
                return Err(m);
            }
            Ok(x) => { out.push(x); }
        }
        i = i + 1;
    }
    assert(its.take(items@.len() as int) =~= its);
    Ok(out)
}

/// Once a prefix of the entries fails, the whole list fails with the same message.
pub proof fn lemma_entries_error_persists(items: Seq<Seq<char>>, k: int)
    requires
        0 <= k <= items.len(),
        iteration_entries(items.take(k)) is Err,
    ensures
        iteration_entries(items) == iteration_entries(items.take(k)),
    decreases items.len() - k,
{
    if k < items.len() {
        assert(items.take(k + 1).drop_last() =~= items.take(k));
        lemma_entries_error_persists(items, k + 1);
    } else {
        assert(items.take(k) =~= items);
    }
}

/// Parses the `--iterations` argument (see `iterations_arg`).
pub fn parse_iterations_arg(arg: Option<&str>) -> (r: Result<Vec<(u64, u32)>, String>)
    ensures
        match iteration_overrides(match arg { Some(s) => Some(s@), None => None }) {
            Ok(x) => r is Ok && r->Ok_0@ == x,
            Err(m) => r is Err && r->Err_0@ == m,
        },
{
    match arg {
        None => Ok(Vec::new()),
        Some(s) => iteration_entries_of(s),
    }
}


// ---------------------------------------------------------------- resolved sizes

/// A transfer size and how many timed transfers of it to run.
#[derive(Debug, Clone, Copy, PartialEq, Eq, Structural)]
pub struct ResolvedSize {
    pub bytes: u64,
    pub iterations: u32,
}

/// The default sizes, in order, with their default iteration counts: 25 bytes 200
/// times, 1 MiB 100 times, 10 MiB 30 times, 100 MiB 10 times.
pub open spec fn default_sizes() -> Seq<(u64, u32)> {
    seq![(25u64, 200u32), (1048576u64, 100u32), (10485760u64, 30u32), (104857600u64, 10u32)]
}

/// The default iteration count of a size, or 0 for a size without a default.
pub open spec fn default_iterations(bytes: u64) -> u32 {
    if bytes == 25 {
        200
    } else if bytes == 1048576 {
        100
    } else if bytes == 10485760 {
        30
    } else if bytes == 104857600 {
        10
    } else {
        0
    }
}

/// The sizes of a list read in order; the first entry that fails decides the error.
pub open spec fn size_entries(items: Seq<Seq<char>>) -> Result<Seq<u64>, Seq<char>>
    decreases items.len(),
{
    if items.len() == 0 {
        Ok(Seq::<u64>::empty())
    } else {
        match size_entries(items.drop_last()) {
            Err(m) => Err(m),
            Ok(prev) => match size_token(items.last()) {
                Err(m) => Err(m),
                Ok(b) => Ok(prev.push(b)),
            },
        }
    }
}

/// The sizes an adb run transfers, each with its default count: the default sizes
/// when `--sizes` is absent, else the listed sizes in order (an empty list is an
/// error).
pub open spec fn chosen_sizes(sizes_arg: Option<Seq<char>>) -> Result<Seq<(u64, u32)>, Seq<char>> {
    match sizes_arg {
        None => Ok(default_sizes()),
        Some(s) => match size_entries(list_items(s)) {
            Err(m) => Err(m),
            Ok(bs) => if bs.len() == 0 {
                Err("--sizes was empty"@)
            } else {
                Ok(bs.map_values(|b: u64| (b, default_iterations(b))))
            },
        },
    }
}

/// The count of the first override for `bytes`, if any.
pub open spec fn first_override(overrides: Seq<(u64, u32)>, bytes: u64) -> Option<u32>
    decreases overrides.len(),
{
    if overrides.len() == 0 {
        None
    } else if overrides[0].0 == bytes {
        Some(overrides[0].1)
    } else {
        first_override(overrides.drop_first(), bytes)
    }
}

/// The message for a size that ends up with no iteration count.
pub open spec fn no_count_message(bytes: u64) -> Seq<char> {
    "no iteration count for size "@ + decimal(bytes as nat)
        + " bytes (no default; specify via --iterations)"@
}

/// Each chosen size with its count (the first override for it, else its default),
/// in order; the first size left with a count of 0 decides the error.
pub open spec fn apply_overrides(chosen: Seq<(u64, u32)>, overrides: Seq<(u64, u32)>)
    -> Result<Seq<(u64, u32)>, Seq<char>>
    decreases chosen.len(),
{
    if chosen.len() == 0 {
        Ok(Seq::<(u64, u32)>::empty())
    } else {
        match apply_overrides(chosen.drop_last(), overrides) {
            Err(m) => Err(m),
            Ok(prev) => {
                let (b, d) = chosen.last();
                let n = match first_override(overrides, b) { Some(n) => n, None => d };
                if n == 0 { Err(no_count_message(b)) } else { Ok(prev.push((b, n))) }
            },
        }
    }
}

/// The sizes and counts of an adb run from its `--sizes` and `--iterations`
/// arguments: the sizes are read first, then the overrides, then each size gets
/// its count.
pub open spec fn resolved_sizes(sizes_arg: Option<Seq<char>>, iterations: Option<Seq<char>>)
    -> Result<Seq<(u64, u32)>, Seq<char>>
{
    match chosen_sizes(sizes_arg) {
        Err(m) => Err(m),
        Ok(chosen) => match iteration_overrides(iterations) {
            Err(m) => Err(m),
            Ok(overrides) => apply_overrides(chosen, overrides),
        },
    }
}

/// The (size, count) pairs of resolved sizes.
pub open spec fn resolved_pairs(v: Seq<ResolvedSize>) -> Seq<(u64, u32)> {
    v.map_values(|r: ResolvedSize| (r.bytes, r.iterations))
}

/// The optional argument `a` as a sequence of characters.
pub open spec fn opt_view(a: Option<&str>) -> Option<Seq<char>> {
    match a {
        Some(s) => Some(s@),
        None => None,
    }
}

fn default_iterations_of(bytes: u64) -> (n: u32)
    ensures n == default_iterations(bytes),
{
    if bytes == 25 {
        200
    } else if bytes == 1048576 {
        100
    } else if bytes == 10485760 {
        30
    } else if bytes == 104857600 {
        10
    } else {
        0
    }
}

/// The sizes of a comma-separated list, in order.
fn size_entries_of(s: &str) -> (r: Result<Vec<u64>, String>)
    ensures
        match size_entries(list_items(s@)) {
            Ok(x) => r is Ok && r->Ok_0@ == x,
            Err(m) => r is Err && r->Err_0@ == m,
        },
{
    let v = chars_of(s);
    let items = list_item_ranges(&v);
    let ghost its = list_items(v@);
    let mut out: Vec<u64> = Vec::new();
    let mut i: usize = 0;
    assert(its.take(0) =~= Seq::<Seq<char>>::empty());
    while i < items.len()
        invariant
            i <= items@.len(),
            its == pieces(v@, items@),
            its == list_items(s@),
            ranges_within(items@, 0, v@.len() as int),
            size_entries(its.take(i as int)) == Ok::<Seq<u64>, Seq<char>>(out@),
        decreases items@.len() - i,
    {
        let (a, b) = items[i];
        assert(its.take(i + 1).drop_last() =~= its.take(i as int));
        assert(its[i as int] == v@.subrange(a as int, b as int));
        match size_token_range(&v, a, b) {
            Err(m) => {
                proof {
                    assert(size_entries(its.take(i + 1)) == Err::<Seq<u64>, Seq<char>>(m@));
                    lemma_sizes_error_persists(its, i + 1);
                }
                return Err(m);
            }
            Ok(x) => { out.push(x); }
        }
        i = i + 1;
    }
    assert(its.take(items@.len() as int) =~= its);
    Ok(out)
}

/// Once a prefix of the sizes fails, the whole list fails with the same message.
pub proof fn lemma_sizes_error_persists(items: Seq<Seq<char>>, k: int)
    requires
        0 <= k <= items.len(),
        size_entries(items.take(k)) is Err,
    ensures
        size_entries(items) == size_entries(items.take(k)),
    decreases items.len() - k,
{
    if k < items.len() {
        assert(items.take(k + 1).drop_last() =~= items.take(k));
        lemma_sizes_error_persists(items, k + 1);
    } else {
        assert(items.take(k) =~= items);
    }
}

/// Once a prefix of the sizes is left without a count, the whole fails with its message.
pub proof fn lemma_overrides_error_persists(chosen: Seq<(u64, u32)>, overrides: Seq<(u64, u32)>, k: int)
    requires
        0 <= k <= chosen.len(),
        apply_overrides(chosen.take(k), overrides) is Err,
    ensures
        apply_overrides(chosen, overrides) == apply_overrides(chosen.take(k), overrides),
    decreases chosen.len() - k,
{
    if k < chosen.len() {
        assert(chosen.take(k + 1).drop_last() =~= chosen.take(k));
        lemma_overrides_error_persists(chosen, overrides, k + 1);
    } else {
        assert(chosen.take(k) =~= chosen);
    }
}

/// The first override for `bytes`.
fn find_override(overrides: &Vec<(u64, u32)>, bytes: u64) -> (r: Option<u32>)
    ensures r == first_override(overrides@, bytes),
{
    let mut i: usize = 0;
    assert(overrides@.skip(0) =~= overrides@);
    while i < overrides.len()
        invariant
            i <= overrides@.len(),
            first_override(overrides@, bytes) == first_override(overrides@.skip(i as int), bytes),
        decreases overrides@.len() - i,
    {
        let (b, n) = overrides[i];
        let ghost rest = overrides@.skip(i as int);
        assert(rest[0] == overrides@[i as int]);
        assert(rest.drop_first() =~= overrides@.skip(i + 1));
        if b == bytes {
            return Some(n);
        }
        i = i + 1;
    }
    assert(overrides@.skip(i as int) =~= Seq::<(u64, u32)>::empty());
    None
}

/// Decides the sizes and counts of an adb run (see `resolved_sizes`).
pub fn resolve_specs(sizes_arg: Option<&str>, iterations_arg: Option<&str>) -> (r: Result<Vec<ResolvedSize>, String>)
    ensures
        match resolved_sizes(opt_view(sizes_arg), opt_view(iterations_arg)) {
            Ok(x) => r is Ok && resolved_pairs(r->Ok_0@) == x,
            Err(m) => r is Err && r->Err_0@ == m,
        },
{
    let mut chosen: Vec<(u64, u32)> = Vec::new();
    match sizes_arg {
        None => {
            chosen.push((25, 200));
            chosen.push((1048576, 100));
            chosen.push((10485760, 30));
            chosen.push((104857600, 10));
            assert(chosen@ =~= default_sizes());
        }
        Some(s) => {
            let bs = match size_entries_of(s) {
                Err(m) => { return Err(m); }
                Ok(bs) => bs,
            };
            let mut i: usize = 0;
            while i < bs.len()
                invariant
                    i <= bs@.len(),
                    chosen@ == bs@.take(i as int).map_values(|b: u64| (b, default_iterations(b))),
                decreases bs@.len() - i,
            {
                let b = bs[i];
                chosen.push((b, default_iterations_of(b)));
                assert(chosen@ =~= bs@.take(i + 1).map_values(|b: u64| (b, default_iterations(b))));
                i = i + 1;
            }
            assert(bs@.take(bs@.len() as int) =~= bs@);
            if bs.len() == 0 {
                return Err(String::from_str("--sizes was empty"));
            }
        }
    }
    assert(chosen_sizes(opt_view(sizes_arg)) == Ok::<Seq<(u64, u32)>, Seq<char>>(chosen@));
    let overrides = match parse_iterations_arg(iterations_arg) {
        Err(m) => { return Err(m); }
        Ok(o) => o,
    };
    assert(iteration_overrides(opt_view(iterations_arg)) == Ok::<Seq<(u64, u32)>, Seq<char>>(overrides@));
    let mut resolved: Vec<ResolvedSize> = Vec::with_capacity(chosen.len());
    let mut i: usize = 0;
    assert(chosen@.take(0) =~= Seq::<(u64, u32)>::empty());
    assert(resolved_pairs(resolved@) =~= Seq::<(u64, u32)>::empty());
    while i < chosen.len()
        invariant
            i <= chosen@.len(),
            chosen_sizes(opt_view(sizes_arg)) == Ok::<Seq<(u64, u32)>, Seq<char>>(chosen@),
            iteration_overrides(opt_view(iterations_arg)) == Ok::<Seq<(u64, u32)>, Seq<char>>(overrides@),
            apply_overrides(chosen@.take(i as int), overrides@)
                == Ok::<Seq<(u64, u32)>, Seq<char>>(resolved_pairs(resolved@)),
        decreases chosen@.len() - i,
    {
        let (b, d) = chosen[i];
        assert(chosen@.take(i + 1).drop_last() =~= chosen@.take(i as int));
        assert(chosen@.take(i + 1).last() == chosen@[i as int]);
        let n = match find_override(&overrides, b) { Some(n) => n, None => d };
        if n == 0 {
            let mut m = String::from_str("no iteration count for size ");
            push_decimal(&mut m, b);
            m.append(" bytes (no default; specify via --iterations)");
            proof {
                assert(apply_overrides(chosen@.take(i + 1), overrides@)
                    == Err::<Seq<(u64, u32)>, Seq<char>>(m@));
                lemma_overrides_error_persists(chosen@, overrides@, i + 1);
                assert(chosen@.take(chosen@.len() as int) =~= chosen@);
            }
            return Err(m);
        }
        let ghost old_resolved = resolved@;
        resolved.push(ResolvedSize { bytes: b, iterations: n });
        assert(resolved_pairs(resolved@) =~= resolved_pairs(old_resolved).push((b, n)));
        i = i + 1;
    }
    assert(chosen@.take(chosen@.len() as int) =~= chosen@);
    Ok(resolved)
}


// ---------------------------------------------------------------- names and labels

/// How a transfer size is labelled in progress lines: whole GiB, MiB or KiB with the
/// largest unit that divides it, else bytes.
pub open spec fn size_label(n: u64) -> Seq<char> {
    if n >= 1073741824 && n % 1073741824 == 0 {
        decimal((n / 1073741824) as nat) + "G"@
    } else if n >= 1048576 && n % 1048576 == 0 {
        decimal((n / 1048576) as nat) + "M"@
    } else if n >= 1024 && n % 1024 == 0 {
        decimal((n / 1024) as nat) + "K"@
    } else {
        decimal(n as nat) + "B"@
    }
}

pub fn format_size(n: u64) -> (r: String)
    ensures r@ == size_label(n),
{
    let mut r = String::new();
    if n >= 1073741824 && n % 1073741824 == 0 {
        push_decimal(&mut r, n / 1073741824);
        r.append("G");
    } else if n >= 1048576 && n % 1048576 == 0 {
        push_decimal(&mut r, n / 1048576);
        r.append("M");
    } else if n >= 1024 && n % 1024 == 0 {
        push_decimal(&mut r, n / 1024);
        r.append("K");
    } else {
        push_decimal(&mut r, n);
        r.append("B");
    }
    assert(r@ =~= size_label(n));
    r
}

/// The remote directory with a trailing `/`, added where it is missing.
pub open spec fn remote_dir_of(path: Seq<char>) -> Seq<char> {
    if path.len() > 0 && path.last() == '/' { path } else { path.push('/') }
}

/// Normalizes the `--remote-path` argument to directory form.
pub fn remote_dir(remote_path: &str) -> (r: String)
    ensures r@ == remote_dir_of(remote_path@),
{
    let v = chars_of(remote_path);
    let mut r = String::from_str(remote_path);
    if v.len() > 0 && v[v.len() - 1] == '/' {
        r
    } else {
        crate::text::push_char(&mut r, '/');
        r
    }
}

/// `prefix`, the size, `_`, the iteration and `.bin`: the file name of one payload.
pub open spec fn payload_file_name(prefix: Seq<char>, bytes: u64, i: u64) -> Seq<char> {
    prefix + decimal(bytes as nat) + "_"@ + decimal(i as nat) + ".bin"@
}

fn payload_name(prefix: &str, bytes: u64, i: u64) -> (r: String)
    ensures r@ == payload_file_name(prefix@, bytes, i),
{
    let mut r = String::from_str(prefix);
    push_decimal(&mut r, bytes);
    r.append("_");
    push_decimal(&mut r, i);
    r.append(".bin");
    r
}

/// The device-side path of the `i`-th payload of a size.
pub fn remote_payload_path(remote_dir: &str, bytes: u64, i: u64) -> (r: String)
    ensures r@ == payload_file_name(remote_dir@ + "fleetbench_"@, bytes, i),
{
    let mut r = String::from_str(remote_dir);
    r.append("fleetbench_");
    push_decimal(&mut r, bytes);
    r.append("_");
    push_decimal(&mut r, i);
    r.append(".bin");
    r
}

/// The local file name of the `i`-th generated payload of a size.
pub fn local_payload_name(bytes: u64, i: u64) -> (r: String)
    ensures r@ == payload_file_name("payload_"@, bytes, i),
{
    payload_name("payload_", bytes, i)
}

/// The local file name the `i`-th payload of a size is pulled back into.
pub fn pulled_payload_name(bytes: u64, i: u64) -> (r: String)
    ensures r@ == payload_file_name("pulled_"@, bytes, i),
{
    payload_name("pulled_", bytes, i)
}

/// The configuration record of an adb run: the adb binary (`adb` unless given), the
/// requested serial, the remote directory and the resolved sizes, in order.
pub fn adb_config(adb_path: Option<String>, serial: Option<String>, remote_dir: String, specs: &Vec<ResolvedSize>) -> (c: AdbConfig)
    ensures
        c.command@ == "adb"@,
        c.adb_path@ == match adb_path { Some(p) => p@, None => "adb"@ },
        c.serial == serial,
        c.remote_path == remote_dir,
        c.sizes@.len() == specs@.len(),
        forall|i: int| 0 <= i < specs@.len() ==> (#[trigger] c.sizes@[i]).size_bytes == specs@[i].bytes
            && c.sizes@[i].iterations == specs@[i].iterations,
{
    let mut sizes: Vec<AdbSizeSpec> = Vec::new();
    let mut i: usize = 0;
    while i < specs.len()
        invariant
            i <= specs@.len(),
            sizes@.len() == i,
            forall|k: int| 0 <= k < i ==> (#[trigger] sizes@[k]).size_bytes == specs@[k].bytes
                && sizes@[k].iterations == specs@[k].iterations,
        decreases specs@.len() - i,
    {
        sizes.push(AdbSizeSpec { size_bytes: specs[i].bytes, iterations: specs[i].iterations });
        i = i + 1;
    }
    let adb_path = match adb_path {
        Some(p) => p,
        None => String::from_str("adb"),
    };
    AdbConfig {
        command: String::from_str("adb"),
        adb_path,
        serial,
        remote_path: remote_dir,
        sizes,
    }
}

// ---------------------------------------------------------------- devices

/// The serials of the devices that `adb devices -l` lists as ready, in order: after
/// the header line, each line whose second whitespace-separated field is `device`
/// contributes its first field.
pub open spec fn ready_serials(lines: Seq<Seq<char>>) -> Seq<Seq<char>>
    decreases lines.len(),
{
    if lines.len() == 0 {
        Seq::<Seq<char>>::empty()
    } else {
        let prev = ready_serials(lines.drop_last());
        let toks = tokens(lines.last(), true);
        if toks.len() >= 2 && toks[1] == "device"@ { prev.push(toks[0]) } else { prev }
    }
}

/// The ready devices listed in the output of `adb devices -l`.
pub open spec fn device_serials(stdout: Seq<char>) -> Seq<Seq<char>> {
    ready_serials(split_on(stdout, '\n').drop_first())
}

/// The views of a list of strings.
pub open spec fn string_views(v: Seq<String>) -> Seq<Seq<char>> {
    v.map_values(|s: String| s@)
}

/// Reads the ready device serials out of the output of `adb devices -l`.
pub fn parse_device_serials(stdout: &str) -> (r: Vec<String>)
    ensures string_views(r@) == device_serials(stdout@),
{
    let v = chars_of(stdout);
    let lines = split_ranges(&v, 0, v.len(), '\n');
    let ghost ls = split_on(v@.subrange(0, v@.len() as int), '\n');
    proof {
        assert(v@.subrange(0, v@.len() as int) =~= stdout@);
        crate::text::lemma_split_on_nonempty(stdout@, '\n');
    }
    let mut r: Vec<String> = Vec::new();
    let mut i: usize = 1;
    assert(ls.subrange(1, 1) =~= Seq::<Seq<char>>::empty());
    assert(string_views(r@) =~= Seq::<Seq<char>>::empty());
    while i < lines.len()
        invariant
            1 <= i <= lines@.len(),
            ls == pieces(v@, lines@),
            ls == split_on(stdout@, '\n'),
            ranges_within(lines@, 0, v@.len() as int),
            string_views(r@) == ready_serials(ls.subrange(1, i as int)),
        decreases lines@.len() - i,
    {
        let (a, b) = lines[i];
        assert(ls.subrange(1, i + 1).drop_last() =~= ls.subrange(1, i as int));
        assert(ls[i as int] == v@.subrange(a as int, b as int));
        let toks = token_ranges(&v, a, b, true);
        let ghost tk = tokens(v@.subrange(a as int, b as int), true);
        if toks.len() >= 2 {
            let (sa, sb) = toks[0];
            let (da, db) = toks[1];
            assert(tk[0] == v@.subrange(sa as int, sb as int));
            assert(tk[1] == v@.subrange(da as int, db as int));
            if range_eq(&v, da, db, "device") {
                let ghost old_r = r@;
                r.push(string_of_range(&v, sa, sb));
                assert(string_views(r@) =~= string_views(old_r).push(tk[0]));
            }
        }
        i = i + 1;
    }
    assert(ls.subrange(1, lines@.len() as int) =~= ls.drop_first());
    r
}

/// The items of `v` joined by `sep` (`[String]::join`).
pub open spec fn join(v: Seq<Seq<char>>, sep: Seq<char>) -> Seq<char>
    decreases v.len(),
{
    if v.len() == 0 {
        Seq::<char>::empty()
    } else if v.len() == 1 {
        v[0]
    } else {
        join(v.drop_last(), sep) + sep + v.last()
    }
}

/// The device an adb run uses, or the error that ends the run: the requested serial
/// if it is among the ready devices; with none requested, the only ready device.
pub open spec fn device_choice(serials: Seq<Seq<char>>, requested: Option<Seq<char>>)
    -> Result<Seq<char>, (Seq<char>, Seq<char>)>
{
    match requested {
        Some(req) => if serials.contains(req) {
            Ok(req)
        } else {
            Err((ERR_NO_DEVICE@, "requested serial "@ + debug_str(req) + " not present in `adb devices`"@))
        },
        None => if serials.len() == 0 {
            Err((ERR_NO_DEVICE@, "no devices attached"@))
        } else if serials.len() == 1 {
            Ok(serials[0])
        } else {
            Err((ERR_MULTIPLE_DEVICES@, "multiple devices attached ("@ + join(serials, ","@)
                + "); pass --serial"@))
        },
    }
}

fn string_eq_str(s: &String, t: &str) -> (r: bool)
    ensures r == (s@ == t@),
{
    let v = chars_of(s.as_str());
    assert(v@.subrange(0, v@.len() as int) =~= s@);
    range_eq(&v, 0, v.len(), t)
}

/// Chooses the device of an adb run (see `device_choice`).
pub fn select_device(serials: &Vec<String>, requested: Option<&str>) -> (r: Result<String, ErrorInfo>)
    ensures
        match device_choice(string_views(serials@), opt_view(requested)) {
            Ok(s) => r is Ok && r->Ok_0@ == s,
            Err((k, m)) => r is Err && r->Err_0.kind@ == k && r->Err_0.message@ == m,
        },
{
    let ghost sv = string_views(serials@);
    match requested {
        Some(req) => {
            let mut i: usize = 0;
            while i < serials.len()
                invariant
                    i <= serials@.len(),
                    sv == string_views(serials@),
                    requested == Some(req),
                    forall|k: int| 0 <= k < i ==> sv[k] != req@,
                decreases serials@.len() - i,
            {
                if string_eq_str(&serials[i], req) {
                    assert(sv[i as int] == req@);
                    assert(sv.contains(req@));
                    return Ok(String::from_str(req));
                }
                i = i + 1;
            }
            let d = render_debug_str(req);
            Err(ErrorInfo {
                kind: String::from_str(ERR_NO_DEVICE),
                message: message3("requested serial ", d.as_str(), " not present in `adb devices`"),
            })
        }
        None => {
            if serials.len() == 0 {
                Err(ErrorInfo {
                    kind: String::from_str(ERR_NO_DEVICE),
                    message: String::from_str("no devices attached"),
                })
            } else if serials.len() == 1 {
                Ok(serials[0].clone())
            } else {
                let mut joined = serials[0].clone();
                let mut i: usize = 1;
                assert(sv.take(1).drop_last() =~= Seq::<Seq<char>>::empty());
                while i < serials.len()
                    invariant
                        1 <= i <= serials@.len(),
                        sv == string_views(serials@),
                        joined@ == join(sv.take(i as int), ","@),
                    decreases serials@.len() - i,
                {
                    assert(sv.take(i + 1).drop_last() =~= sv.take(i as int));
                    joined.append(",");
                    joined.append(serials[i].as_str());
                    i = i + 1;
                }
                assert(sv.take(serials@.len() as int) =~= sv);
                let mut m = String::from_str("multiple devices attached (");
                m.append(joined.as_str());
                m.append("); pass --serial");
                Err(ErrorInfo { kind: String::from_str(ERR_MULTIPLE_DEVICES), message: m })
            }
        }
    }
}

// ---------------------------------------------------------------- verification and outcome

/// The lower-case hexadecimal digit of a value below sixteen.
pub open spec fn hex_digit(d: nat) -> char {
    if d < 10 { (d + '0' as nat) as char } else { (d - 10 + 'a' as nat) as char }
}

/// The lower-case hexadecimal rendering of a byte string, two digits per byte.
pub open spec fn hex_lower(bytes: Seq<u8>) -> Seq<char>
    decreases bytes.len(),
{
    if bytes.len() == 0 {
        Seq::<char>::empty()
    } else {
        hex_lower(bytes.drop_last()).push(hex_digit(bytes.last() as nat / 16))
            .push(hex_digit(bytes.last() as nat % 16))
    }
}

/// Whether the output of `sha256sum` on the device reports the expected digest: its
/// first whitespace-separated field is 64 characters long and equals the expected
/// digest in hexadecimal, ignoring ASCII case.
pub open spec fn sha256sum_reports(stdout: Seq<char>, expected: Seq<u8>) -> bool {
    let toks = tokens(stdout, true);
    let hex = if toks.len() > 0 { toks[0] } else { Seq::<char>::empty() };
    hex.len() == 64 && crate::text::eq_ignore_ascii_case(hex, hex_lower(expected))
}

fn hex_digit_char(d: u8) -> (c: char)
    requires d < 16,
    ensures c == hex_digit(d as nat),
{
    if d < 10 {
        (d + 48) as char
    } else {
        (d - 10 + 97) as char
    }
}

/// The lower-case hexadecimal rendering of `bytes`.
pub fn to_hex_lower(bytes: &[u8]) -> (r: Vec<char>)
    ensures r@ == hex_lower(bytes@),
{
    let mut r: Vec<char> = Vec::new();
    let mut i: usize = 0;
    assert(bytes@.take(0) =~= Seq::<u8>::empty());
    while i < bytes.len()
        invariant
            i <= bytes@.len(),
            r@ == hex_lower(bytes@.take(i as int)),
        decreases bytes@.len() - i,
    {
        let b = bytes[i];
        assert(bytes@.take(i + 1).drop_last() =~= bytes@.take(i as int));
        r.push(hex_digit_char(b / 16));
        r.push(hex_digit_char(b % 16));
        i = i + 1;
    }
    assert(bytes@.take(bytes@.len() as int) =~= bytes@);
    r
}

/// Checks the output of `sha256sum` on the device against the expected digest (see
/// `sha256sum_reports`).
pub fn sha256sum_matches(stdout: &str, expected: &[u8]) -> (ok: bool)
    ensures ok == sha256sum_reports(stdout@, expected@),
{
    let v = chars_of(stdout);
    assert(v@.subrange(0, v@.len() as int) =~= stdout@);
    let toks = token_ranges(&v, 0, v.len(), true);
    if toks.len() == 0 {
        return false;
    }
    let (a, b) = toks[0];
    assert(v@.subrange(a as int, b as int) == tokens(stdout@, true)[0]);
    let hex = to_hex_lower(expected);
    if b - a != 64 || hex.len() != 64 {
        return false;
    }
    let mut i: usize = 0;
    while i < 64
        invariant
            a + 64 == b <= v@.len(),
            hex@.len() == 64,
            hex@ == hex_lower(expected@),
            v@.subrange(a as int, b as int) == tokens(stdout@, true)[0],
            tokens(stdout@, true).len() > 0,
            i <= 64,
            forall|k: int| 0 <= k < i ==> crate::text::ascii_lower(v@[a + k])
                == crate::text::ascii_lower(#[trigger] hex@[k]),
        decreases 64 - i,
    {
        if crate::text::char_ascii_lower(v[a + i]) != crate::text::char_ascii_lower(hex[i]) {
            assert(v@.subrange(a as int, b as int)[i as int] == v@[a + i]);
            return false;
        }
        i = i + 1;
    }
    assert forall|k: int| 0 <= k < 64 implies crate::text::ascii_lower(
        #[trigger] v@.subrange(a as int, b as int)[k]) == crate::text::ascii_lower(hex@[k]) by {
        assert(v@.subrange(a as int, b as int)[k] == v@[a + k]);
    }
    true
}

/// The exit code for a run that failed with `err`: 2 for a failed correctness
/// check, 1 for anything else.
pub fn exit_code_for(err: &ErrorInfo) -> (code: i32)
    ensures code == failure_exit_code(err.kind@),
{
    if string_eq_str(&err.kind, ERR_CORRECTNESS_CHECK_FAILED) { 2 } else { 1 }
}

/// How a completed adb run ends: failed, with a correctness error and exit code 2,
/// when any transfer failed its SHA-256 check; otherwise succeeded with exit code 0.
pub fn transfers_outcome(sha256_ok: &Vec<bool>) -> (r: (Status, Option<ErrorInfo>, i32))
    ensures
        (exists|i: int| 0 <= i < sha256_ok@.len() && !sha256_ok@[i]) ==> {
            &&& r.0 == Status::Failed
            &&& r.1 is Some
            &&& r.1->0.kind@ == ERR_CORRECTNESS_CHECK_FAILED@
            &&& r.1->0.message@ == "one or more iterations failed sha256 verification"@
            &&& r.2 == 2
        },
        (forall|i: int| 0 <= i < sha256_ok@.len() ==> sha256_ok@[i]) ==> {
            &&& r.0 == Status::Succeeded
            &&& r.1 is None
            &&& r.2 == 0
        },
{
    let mut i: usize = 0;
    while i < sha256_ok.len()
        invariant
            i <= sha256_ok@.len(),
            forall|k: int| 0 <= k < i ==> sha256_ok@[k],
        decreases sha256_ok@.len() - i,
    {
        if !sha256_ok[i] {
            return (
                Status::Failed,
                Some(ErrorInfo {
                    kind: String::from_str(ERR_CORRECTNESS_CHECK_FAILED),
                    message: String::from_str("one or more iterations failed sha256 verification"),
                }),
                2,
            );
        }
        i = i + 1;
    }
    (Status::Succeeded, None, 0)
}

} // verus!

//! Recognizing the keyboard's serial device among the USB devices, from the properties that
//! `udevadm info -q property --export` prints (lines of `KEY='value'`).

use vstd::prelude::*;

verus! {

/// The first index at or after `i` where `s` holds `c`, or `s.len()` if there is none.
pub open spec fn find_from(s: Seq<char>, c: char, i: int) -> int
    decreases s.len() - i,
{
    if i < 0 || i >= s.len() {
        s.len() as int
    } else if s[i] == c {
        i
    } else {
        find_from(s, c, i + 1)
    }
}

/// `v` without its leading `'` characters.
pub open spec fn trim_start_quotes(v: Seq<char>) -> Seq<char>
    decreases v.len(),
{
    if v.len() > 0 && v[0] == '\'' {
        trim_start_quotes(v.drop_first())
    } else {
        v
    }
}

/// `v` without its trailing `'` characters.
pub open spec fn trim_end_quotes(v: Seq<char>) -> Seq<char>
    decreases v.len(),
{
    if v.len() > 0 && v.last() == '\'' {
        trim_end_quotes(v.drop_last())
    } else {
        v
    }
}

/// `v` without its leading and trailing `'` characters.
pub open spec fn trim_quotes(v: Seq<char>) -> Seq<char> {
    trim_end_quotes(trim_start_quotes(v))
}

/// The key and the unquoted value of a `KEY=value` line: split at the first `=`.
pub open spec fn pair_of_line(line: Seq<char>) -> Option<(Seq<char>, Seq<char>)> {
    let eq = find_from(line, '=', 0);
    if eq >= line.len() {
        None
    } else {
        Some((line.take(eq), trim_quotes(line.skip(eq + 1))))
    }
}

/// The text of the line that starts at `start` and ends at the newline at `end` (or at the
/// end of `s`): without the newline, and without a carriage return right before it.
pub open spec fn line_at(s: Seq<char>, start: int, end: int) -> Seq<char> {
    if end < s.len() && end > start && s[end - 1] == '\r' {
        s.subrange(start, end - 1)
    } else {
        s.subrange(start, end)
    }
}

/// The `KEY=value` pairs of the lines of `s` from index `start` on, in order. Lines without
/// `=` are skipped.
pub open spec fn env_pairs(s: Seq<char>, start: int) -> Seq<(Seq<char>, Seq<char>)>
    decreases s.len() + 1 - start
    via env_pairs_decreases
{
    if start < 0 || start >= s.len() {
        Seq::empty()
    } else {
        let end = find_from(s, '\n', start);
        let rest = env_pairs(s, end + 1);
        match pair_of_line(line_at(s, start, end)) {
            Some(p) => seq![p] + rest,
            None => rest,
        }
    }
}

#[via_fn]
proof fn env_pairs_decreases(s: Seq<char>, start: int) {
    if 0 <= start < s.len() {
        lemma_find_from_bounds(s, '\n', start);
    }
}

/// The pairs as text.
pub open spec fn pairs_view(pairs: Seq<(String, String)>) -> Seq<(Seq<char>, Seq<char>)> {
    pairs.map_values(|p: (String, String)| (p.0@, p.1@))
}

/// The value of the last pair with key `key`: later lines override earlier ones.
pub open spec fn lookup(pairs: Seq<(Seq<char>, Seq<char>)>, key: Seq<char>) -> Option<Seq<char>>
    decreases pairs.len(),
{
    if pairs.len() == 0 {
        None
    } else if pairs.last().0 == key {
        Some(pairs.last().1)
    } else {
        lookup(pairs.drop_last(), key)
    }
}

pub proof fn lemma_find_from_bounds(s: Seq<char>, c: char, i: int)
    requires
        0 <= i,
    ensures
        i <= s.len() ==> i <= find_from(s, c, i) <= s.len(),
        i > s.len() ==> find_from(s, c, i) == s.len(),
        find_from(s, c, i) < s.len() ==> s[find_from(s, c, i)] == c,
    decreases s.len() - i,
{
    if 0 <= i < s.len() && s[i] != c {
        lemma_find_from_bounds(s, c, i + 1);
    }
}

/// The first index at or after `i` and before `n` where `s` holds `c`, or `n`.
fn find_char(s: &str, n: usize, c: char, i: usize) -> (r: usize)
    requires
        n <= s@.len(),
        i <= n,
    ensures
        r == find_from(s@.take(n as int), c, i as int),
{
    let mut j = i;
    while j < n
        invariant
            n <= s@.len(),
            i <= j <= n,
            find_from(s@.take(n as int), c, i as int) == find_from(s@.take(n as int), c, j as int),
        decreases n - j,
    {
        if s.get_char(j) == c {
            return j;
        }
        j = j + 1;
    }
    j
}

/// The range `[from, to)` of `s` without its leading and trailing `'` characters.
fn trim_quote_range(s: &str, from: usize, to: usize) -> (r: (usize, usize))
    requires
        from <= to <= s@.len(),
    ensures
        r.0 <= r.1 <= s@.len(),
        s@.subrange(r.0 as int, r.1 as int) == trim_quotes(s@.subrange(from as int, to as int)),
{
    let mut a = from;
    while a < to && s.get_char(a) == '\''
        invariant
            from <= a <= to <= s@.len(),
            trim_start_quotes(s@.subrange(from as int, to as int)) == trim_start_quotes(s@.subrange(a as int, to as int)),
        decreases to - a,
    {
        assert(s@.subrange(a as int, to as int).drop_first() =~= s@.subrange(a + 1, to as int));
        a = a + 1;
    }
    assert(trim_start_quotes(s@.subrange(from as int, to as int)) == s@.subrange(a as int, to as int));
    let mut b = to;
    while b > a && s.get_char(b - 1) == '\''
        invariant
            a <= b <= to <= s@.len(),
            trim_end_quotes(s@.subrange(a as int, to as int)) == trim_end_quotes(s@.subrange(a as int, b as int)),
        decreases b - a,
    {
        assert(s@.subrange(a as int, b as int).drop_last() =~= s@.subrange(a as int, b - 1));
        b = b - 1;
    }
    (a, b)
}

/// The key and unquoted value of the line `s[start..end]`, if it has an `=`.
fn parse_line(s: &str, start: usize, end: usize) -> (r: Option<(String, String)>)
    requires
        start <= end <= s@.len(),
    ensures
        match r {
            Some(p) => pair_of_line(s@.subrange(start as int, end as int)) == Some((p.0@, p.1@)),
            None => pair_of_line(s@.subrange(start as int, end as int)) is None,
        },
{
    let ghost line = s@.subrange(start as int, end as int);
    let eq = find_char(s, end, '=', start);
    proof {
        lemma_find_in_prefix(s@, end as int, '=', start as int);
        lemma_find_from_bounds(s@.take(end as int), '=', start as int);
        assert(s@.subrange(start as int, end as int) =~= line);
    }
    if eq < end {
        let (a, b) = trim_quote_range(s, eq + 1, end);
        let key = String::from_str(s.substring_char(start, eq));
        let val = String::from_str(s.substring_char(a, b));
        assert(line.take(eq - start) =~= s@.subrange(start as int, eq as int));
        assert(line.skip(eq - start + 1) =~= s@.subrange(eq + 1, end as int));
        Some((key, val))
    } else {
        None
    }
}

/// The pairs of the lines from `start` on are those of the line at `start`, then those of
/// the lines after it.
proof fn lemma_env_pairs_unfold(s: Seq<char>, start: int)
    requires
        0 <= start < s.len(),
    ensures
        ({
            let end = find_from(s, '\n', start);
            env_pairs(s, start) == match pair_of_line(line_at(s, start, end)) {
                Some(p) => seq![p] + env_pairs(s, end + 1),
                None => env_pairs(s, end + 1),
            }
        }),
{
}

/// The `KEY=value` pairs of the lines of `s`, in order, with the quotes around each value
/// removed. Lines without `=` are skipped.
pub fn parse_env(s: &str) -> (pairs: Vec<(String, String)>)
    ensures
        pairs_view(pairs@) == env_pairs(s@, 0),
{
    let n = s.unicode_len();
    let mut pairs: Vec<(String, String)> = Vec::new();
    let mut start: usize = 0;
    while start < n
        invariant
            n == s@.len(),
            start <= n,
            pairs_view(pairs@) + env_pairs(s@, start as int) == env_pairs(s@, 0),
        decreases n - start,
    {
        let end = find_char(s, n, '\n', start);
        proof {
            assert(s@.take(n as int) =~= s@);
            lemma_find_from_bounds(s@, '\n', start as int);
            lemma_env_pairs_unfold(s@, start as int);
        }
        let content_end = if end < n && end > start && s.get_char(end - 1) == '\r' {
            end - 1
        } else {
            end
        };
        assert(line_at(s@, start as int, end as int) == s@.subrange(start as int, content_end as int));
        let ghost pairs_before = pairs@;
        if let Some(p) = parse_line(s, start, content_end) {
            pairs.push(p);
            assert(pairs_view(pairs@) =~= pairs_view(pairs_before) + seq![(p.0@, p.1@)]);
        }
        let ghost rest = env_pairs(s@, end + 1);
        if end >= n {
            start = n;
        } else {
            start = end + 1;
        }
        assert(env_pairs(s@, start as int) == rest);
        assert(pairs_view(pairs@) + env_pairs(s@, start as int) =~= env_pairs(s@, 0));
    }
    assert(env_pairs(s@, start as int) =~= Seq::<(Seq<char>, Seq<char>)>::empty());
    assert(pairs_view(pairs@) =~= pairs_view(pairs@) + Seq::<(Seq<char>, Seq<char>)>::empty());
    pairs
}

/// The value of the last pair with key `key`.
fn get<'a>(pairs: &'a Vec<(String, String)>, key: &str) -> (r: Option<&'a String>)
    ensures
        match r {
            Some(v) => lookup(pairs_view(pairs@), key@) == Some(v@),
            None => lookup(pairs_view(pairs@), key@) is None,
        },
{
    let k = String::from_str(key);
    let mut i = pairs.len();
    assert(pairs@.take(i as int) =~= pairs@);
    while i > 0
        invariant
            i <= pairs@.len(),
            k@ == key@,
            lookup(pairs_view(pairs@), key@) == lookup(pairs_view(pairs@.take(i as int)), key@),
        decreases i,
    {
        let ghost prefix = pairs_view(pairs@.take(i as int));
        assert(prefix.drop_last() =~= pairs_view(pairs@.take(i - 1)));
        if pairs[i - 1].0 == k {
            return Some(&pairs[i - 1].1);
        }
        i = i - 1;
    }
    assert(pairs_view(pairs@.take(0)) =~= Seq::<(Seq<char>, Seq<char>)>::empty());
    None
}

/// The udev properties of a USB device that tell whether it is the keyboard.
#[derive(Debug)]
pub struct Properties {
    pub model: String,
    pub serial: String,
    pub serial_short: String,
    pub vendor: String,
    pub vendor_id: String,
    pub usb_type: String,
    pub usb_driver: String,
}

/// The value of `key`, when present.
pub open spec fn has(pairs: Seq<(String, String)>, key: &str) -> bool {
    lookup(pairs_view(pairs), key@) is Some
}

/// The value of `key`, when present.
pub open spec fn value_of(pairs: Seq<(String, String)>, key: &str) -> Seq<char> {
    lookup(pairs_view(pairs), key@).unwrap()
}

/// The properties, if all of them are present (the last value of each counts).
pub fn parse_properties(properties: &Vec<(String, String)>) -> (r: Option<Properties>)
    ensures
        r is Some <==> {
            &&& has(properties@, "ID_MODEL")
            &&& has(properties@, "ID_SERIAL")
            &&& has(properties@, "ID_SERIAL_SHORT")
            &&& has(properties@, "ID_VENDOR")
            &&& has(properties@, "ID_VENDOR_ID")
            &&& has(properties@, "ID_USB_TYPE")
            &&& has(properties@, "ID_USB_DRIVER")
        },
        r matches Some(p) ==> {
            &&& p.model@ == value_of(properties@, "ID_MODEL")
            &&& p.serial@ == value_of(properties@, "ID_SERIAL")
            &&& p.serial_short@ == value_of(properties@, "ID_SERIAL_SHORT")
            &&& p.vendor@ == value_of(properties@, "ID_VENDOR")
            &&& p.vendor_id@ == value_of(properties@, "ID_VENDOR_ID")
            &&& p.usb_type@ == value_of(properties@, "ID_USB_TYPE")
            &&& p.usb_driver@ == value_of(properties@, "ID_USB_DRIVER")
        },
{
    let model = match get(properties, "ID_MODEL") { Some(v) => v.clone(), None => { return None; } };
    let serial = match get(properties, "ID_SERIAL") { Some(v) => v.clone(), None => { return None; } };
    let serial_short = match get(properties, "ID_SERIAL_SHORT") { Some(v) => v.clone(), None => { return None; } };
    let vendor = match get(properties, "ID_VENDOR") { Some(v) => v.clone(), None => { return None; } };
    let vendor_id = match get(properties, "ID_VENDOR_ID") { Some(v) => v.clone(), None => { return None; } };
    let usb_type = match get(properties, "ID_USB_TYPE") { Some(v) => v.clone(), None => { return None; } };
    let usb_driver = match get(properties, "ID_USB_DRIVER") { Some(v) => v.clone(), None => { return None; } };
    Some(Properties { model, serial, serial_short, vendor, vendor_id, usb_type, usb_driver })
}

/// Whether the properties are those of the keyboard's serial device.
pub open spec fn spec_is_serial_device(p: Properties) -> bool {
    &&& p.model@ == "Tangentbord1"@
    &&& p.vendor@ == "Tux"@
    &&& p.vendor_id@ == "b00b"@
    &&& p.usb_type@ == "generic"@
    &&& p.usb_driver@ == "cdc_acm"@
}

/// Whether the properties are those of the keyboard's serial device.
pub fn is_serial_device(p: &Properties) -> (r: bool)
    ensures
        r == spec_is_serial_device(*p),
{
    p.model == String::from_str("Tangentbord1") && p.vendor == String::from_str("Tux")
        && p.vendor_id == String::from_str("b00b") && p.usb_type == String::from_str("generic")
        && p.usb_driver == String::from_str("cdc_acm")
}

/// Whether a device name is under `bus/` (a USB hub and such): its first path component is
/// `bus`.
pub open spec fn spec_is_bus_name(name: Seq<char>) -> bool {
    &&& name.len() >= 3
    &&& name[0] == 'b'
    &&& name[1] == 'u'
    &&& name[2] == 's'
    &&& (name.len() == 3 || name[3] == '/')
}

/// Whether a device name is under `bus/` (a USB hub and such), which is no serial device.
pub fn is_bus_name(name: &str) -> (r: bool)
    ensures
        r == spec_is_bus_name(name@),
{
    let n = name.unicode_len();
    n >= 3 && name.get_char(0) == 'b' && name.get_char(1) == 'u' && name.get_char(2) == 's' && (n
        == 3 || name.get_char(3) == '/')
}

/// Whether a device's udev properties are those of the keyboard's serial device: all of
/// them are present and the identifying ones have the keyboard's values.
pub open spec fn spec_is_keyboard(props: Seq<(String, String)>) -> bool {
    &&& has(props, "ID_MODEL")
    &&& has(props, "ID_SERIAL")
    &&& has(props, "ID_SERIAL_SHORT")
    &&& has(props, "ID_VENDOR")
    &&& has(props, "ID_VENDOR_ID")
    &&& has(props, "ID_USB_TYPE")
    &&& has(props, "ID_USB_DRIVER")
    &&& value_of(props, "ID_MODEL") == "Tangentbord1"@
    &&& value_of(props, "ID_VENDOR") == "Tux"@
    &&& value_of(props, "ID_VENDOR_ID") == "b00b"@
    &&& value_of(props, "ID_USB_TYPE") == "generic"@
    &&& value_of(props, "ID_USB_DRIVER") == "cdc_acm"@
}

/// Whether a candidate (device name, udev properties) is the keyboard's serial device.
pub open spec fn spec_candidate_ok(c: (String, Vec<(String, String)>)) -> bool {
    !spec_is_bus_name(c.0@) && spec_is_keyboard(c.1@)
}

/// Whether a device, by its name and udev properties, is the keyboard's serial device.
pub fn is_serial_candidate(name: &str, props: &Vec<(String, String)>) -> (r: bool)
    ensures
        r == (!spec_is_bus_name(name@) && spec_is_keyboard(props@)),
{
    if is_bus_name(name) {
        return false;
    }
    match parse_properties(props) {
        Some(p) => is_serial_device(&p),
        None => false,
    }
}

/// The first candidate, in the order the devices were found, that is the keyboard's serial
/// device: not under `bus/`, with all properties present and the keyboard's values.
pub fn pick_serial(cands: &Vec<(String, Vec<(String, String)>)>) -> (r: Option<usize>)
    ensures
        r matches Some(i) ==> i < cands@.len() && spec_candidate_ok(cands@[i as int]) && forall|j: int|
            0 <= j < i ==> !spec_candidate_ok(#[trigger] cands@[j]),
        r is None ==> forall|j: int| 0 <= j < cands@.len() ==> !spec_candidate_ok(#[trigger] cands@[j]),
{
    let mut i: usize = 0;
    while i < cands.len()
        invariant
            i <= cands@.len(),
            forall|j: int| 0 <= j < i ==> !spec_candidate_ok(#[trigger] cands@[j]),
        decreases cands@.len() - i,
    {
        let (name, props) = &cands[i];
        if is_serial_candidate(name.as_str(), props) {
            return Some(i);
        }
        i = i + 1;
    }
    None
}

/// Looking for `c` in the first `k` characters of `s` from `i` finds the same index, shifted,
/// as looking in those characters alone.
proof fn lemma_find_in_prefix(s: Seq<char>, k: int, c: char, i: int)
    requires
        0 <= i <= k <= s.len(),
    ensures
        find_from(s.take(k), c, i) == find_from(s.subrange(i, k), c, 0) + i,
        find_from(s.take(k), c, i) < k ==> find_from(s.take(k), c, i) == find_from(s, c, i),
        find_from(s.take(k), c, i) >= k ==> find_from(s, c, i) >= k,
    decreases k - i,
{
    lemma_find_in_prefix_go(s, k, c, i, i);
}

proof fn lemma_find_in_prefix_go(s: Seq<char>, k: int, c: char, i: int, j: int)
    requires
        0 <= i <= j <= k <= s.len(),
    ensures
        find_from(s.take(k), c, j) == find_from(s.subrange(i, k), c, j - i) + i,
        find_from(s.take(k), c, j) < k ==> find_from(s.take(k), c, j) == find_from(s, c, j),
        find_from(s.take(k), c, j) >= k ==> find_from(s, c, j) >= k,
    decreases k - j,
{
    if j < k && s[j] != c {
        lemma_find_in_prefix_go(s, k, c, i, j + 1);
    }
    if j >= k {
        lemma_find_from_bounds(s, c, j);
    }
}

} // verus!

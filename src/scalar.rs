//! Scalar values of the report: enumeration tokens, decimal integers, addresses.
use vstd::prelude::*;
use crate::model::{Alignment, Disposition, DmarcResult, DkimResult, SpfResult, IpAddress};

verus! {

/// Whether two strings hold the same characters.
pub fn same_text(a: &str, b: &str) -> (r: bool)
    ensures
        r == (a@ == b@),
{
    a.to_owned() == b.to_owned()
}

pub open spec fn alignment_of(s: Seq<char>) -> Option<Alignment> {
    if s == "r"@ {
        Some(Alignment::Relaxed)
    } else if s == "s"@ {
        Some(Alignment::Strict)
    } else {
        None
    }
}

/// Reads an alignment token: exactly `r` or `s`.
pub fn parse_alignment(s: &str) -> (r: Option<Alignment>)
    ensures
        r == alignment_of(s@),
{
    if same_text(s, "r") {
        Some(Alignment::Relaxed)
    } else if same_text(s, "s") {
        Some(Alignment::Strict)
    } else {
        None
    }
}

} // verus!
verus! {

pub open spec fn disposition_of(s: Seq<char>) -> Option<Disposition> {
    if s == "none"@ {
        Some(Disposition::NoAction)
    } else if s == "quarantine"@ {
        Some(Disposition::Quarantine)
    } else if s == "reject"@ {
        Some(Disposition::Reject)
    } else {
        None
    }
}

/// Reads a disposition token: exactly `none`, `quarantine` or `reject`.
pub fn parse_disposition(s: &str) -> (r: Option<Disposition>)
    ensures
        r == disposition_of(s@),
{
    if same_text(s, "none") {
        Some(Disposition::NoAction)
    } else if same_text(s, "quarantine") {
        Some(Disposition::Quarantine)
    } else if same_text(s, "reject") {
        Some(Disposition::Reject)
    } else {
        None
    }
}

pub open spec fn dmarc_result_of(s: Seq<char>) -> Option<DmarcResult> {
    if s == "pass"@ {
        Some(DmarcResult::Pass)
    } else if s == "fail"@ {
        Some(DmarcResult::Fail)
    } else {
        None
    }
}

/// Reads a DMARC verdict token: exactly `pass` or `fail`.
pub fn parse_dmarc_result(s: &str) -> (r: Option<DmarcResult>)
    ensures
        r == dmarc_result_of(s@),
{
    if same_text(s, "pass") {
        Some(DmarcResult::Pass)
    } else if same_text(s, "fail") {
        Some(DmarcResult::Fail)
    } else {
        None
    }
}

pub open spec fn dkim_result_of(s: Seq<char>) -> Option<DkimResult> {
    if s == "none"@ {
        Some(DkimResult::NoResult)
    } else if s == "pass"@ {
        Some(DkimResult::Pass)
    } else if s == "fail"@ {
        Some(DkimResult::Fail)
    } else if s == "policy"@ {
        Some(DkimResult::Policy)
    } else if s == "neutral"@ {
        Some(DkimResult::Neutral)
    } else if s == "temperror"@ {
        Some(DkimResult::TempError)
    } else if s == "permerror"@ {
        Some(DkimResult::PermError)
    } else {
        None
    }
}

/// Reads a DKIM verdict token.
pub fn parse_dkim_result(s: &str) -> (r: Option<DkimResult>)
    ensures
        r == dkim_result_of(s@),
{
    if same_text(s, "none") {
        Some(DkimResult::NoResult)
    } else if same_text(s, "pass") {
        Some(DkimResult::Pass)
    } else if same_text(s, "fail") {
        Some(DkimResult::Fail)
    } else if same_text(s, "policy") {
        Some(DkimResult::Policy)
    } else if same_text(s, "neutral") {
        Some(DkimResult::Neutral)
    } else if same_text(s, "temperror") {
        Some(DkimResult::TempError)
    } else if same_text(s, "permerror") {
        Some(DkimResult::PermError)
    } else {
        None
    }
}

pub open spec fn spf_result_of(s: Seq<char>) -> Option<SpfResult> {
    if s == "none"@ {
        Some(SpfResult::NoResult)
    } else if s == "neutral"@ {
        Some(SpfResult::Neutral)
    } else if s == "pass"@ {
        Some(SpfResult::Pass)
    } else if s == "fail"@ {
        Some(SpfResult::Fail)
    } else if s == "softfail"@ {
        Some(SpfResult::SoftFail)
    } else if s == "temperror"@ {
        Some(SpfResult::TempError)
    } else if s == "permerror"@ {
        Some(SpfResult::PermError)
    } else {
        None
    }
}

/// Reads an SPF verdict token.
pub fn parse_spf_result(s: &str) -> (r: Option<SpfResult>)
    ensures
        r == spf_result_of(s@),
{
    if same_text(s, "none") {
        Some(SpfResult::NoResult)
    } else if same_text(s, "neutral") {
        Some(SpfResult::Neutral)
    } else if same_text(s, "pass") {
        Some(SpfResult::Pass)
    } else if same_text(s, "fail") {
        Some(SpfResult::Fail)
    } else if same_text(s, "softfail") {
        Some(SpfResult::SoftFail)
    } else if same_text(s, "temperror") {
        Some(SpfResult::TempError)
    } else if same_text(s, "permerror") {
        Some(SpfResult::PermError)
    } else {
        None
    }
}

pub open spec fn is_digit(c: char) -> bool {
    '0' <= c && c <= '9'
}

pub open spec fn all_digits(s: Seq<char>) -> bool {
    forall|i: int| 0 <= i < s.len() ==> is_digit(#[trigger] s[i])
}

/// The value of a string of decimal digits.
pub open spec fn digits_value(s: Seq<char>) -> nat
    decreases s.len(),
{
    if s.len() == 0 {
        0
    } else {
        digits_value(s.drop_last()) * 10 + (s.last() as nat - '0' as nat) as nat
    }
}

/// The value of `s` as a decimal integer no larger than `max`: one or more digits
/// and nothing else.
pub open spec fn decimal_of(s: Seq<char>, max: u64) -> Option<u64> {
    if s.len() > 0 && all_digits(s) && digits_value(s) <= max {
        Some(digits_value(s) as u64)
    } else {
        None
    }
}

/// Reads a decimal integer no larger than `max`.
pub fn parse_decimal(s: &str, max: u64) -> (r: Option<u64>)
    ensures
        r == decimal_of(s@, max),
{
    let n = s.unicode_len();
    let mut v: u64 = 0;
    let mut over = false;
    let mut digits = true;
    let mut i: usize = 0;
    while i < n
        invariant
            n == s@.len(),
            i <= n,
            digits == all_digits(s@.take(i as int)),
            digits && !over ==> v == digits_value(s@.take(i as int)) && v <= max,
            digits && over ==> digits_value(s@.take(i as int)) > max,
        decreases n - i,
    {
        let c = s.get_char(i);
        let ghost pre = s@.take(i as int);
        assert(s@.take(i + 1).drop_last() =~= pre);
        if '0' <= c && c <= '9' {
            let d = (c as u32 - '0' as u32) as u64;
            if digits && !over {
                if v > (u64::MAX - d) / 10 || v * 10 + d > max {
                    over = true;
                    proof {
                        if v > (u64::MAX - d) / 10 {
                            assert(v * 10 + d > u64::MAX) by (nonlinear_arith)
                                requires v > (u64::MAX - d) / 10, d <= 9;
                        }
                    }
                } else {
                    v = v * 10 + d;
                }
            } else if digits && over {
                assert(digits_value(s@.take(i + 1)) >= digits_value(pre)) by (nonlinear_arith)
                    requires digits_value(s@.take(i + 1)) == digits_value(pre) * 10 + d;
            }
            proof {
                if digits {
                    assert forall|j: int| 0 <= j < i + 1 implies is_digit(#[trigger] s@.take(i + 1)[j]) by {
                        if j < i {
                            assert(s@.take(i + 1)[j] == pre[j]);
                        }
                    }
                }
            }
        } else {
            assert(!is_digit(s@.take(i + 1)[i as int]));
            digits = false;
        }
        i = i + 1;
    }
    assert(s@.take(n as int) =~= s@);
    if n > 0 && digits && !over {
        Some(v)
    } else {
        None
    }
}

} // verus!
verus! {

/// Splits `s` at each `sep`: the fields completed so far, and the field being read.
pub open spec fn split_state(s: Seq<char>, sep: char) -> (Seq<Seq<char>>, Seq<char>)
    decreases s.len(),
{
    if s.len() == 0 {
        (Seq::empty(), Seq::empty())
    } else {
        let (done, cur) = split_state(s.drop_last(), sep);
        if s.last() == sep {
            (done.push(cur), Seq::empty())
        } else {
            (done, cur.push(s.last()))
        }
    }
}

/// The fields of `s` separated by `sep`; an empty string has one empty field.
pub open spec fn fields(s: Seq<char>, sep: char) -> Seq<Seq<char>> {
    split_state(s, sep).0.push(split_state(s, sep).1)
}

/// Splits `s` into the fields separated by `sep`.
pub fn split_fields<'a>(s: &'a str, sep: char) -> (r: Vec<&'a str>)
    ensures
        r@.map_values(|x: &str| x@) == fields(s@, sep),
{
    let n = s.unicode_len();
    let mut done: Vec<&'a str> = Vec::new();
    let mut start: usize = 0;
    let mut i: usize = 0;
    while i < n
        invariant
            n == s@.len(),
            start <= i <= n,
            done@.map_values(|x: &str| x@) == split_state(s@.take(i as int), sep).0,
            s@.subrange(start as int, i as int) == split_state(s@.take(i as int), sep).1,
        decreases n - i,
    {
        let c = s.get_char(i);
        assert(s@.take(i + 1).drop_last() =~= s@.take(i as int));
        if c == sep {
            let f = s.substring_char(start, i);
            let ghost before = done@;
            done.push(f);
            assert(done@.map_values(|x: &str| x@) =~= before.map_values(|x: &str| x@).push(f@));
            start = i + 1;
            assert(s@.subrange(start as int, i + 1) =~= Seq::<char>::empty());
        } else {
            assert(s@.subrange(start as int, i + 1) =~= s@.subrange(start as int, i as int).push(c));
        }
        i = i + 1;
    }
    assert(s@.take(n as int) =~= s@);
    let last = s.substring_char(start, n);
    let ghost before = done@;
    done.push(last);
    assert(done@.map_values(|x: &str| x@) =~= before.map_values(|x: &str| x@).push(last@));
    done
}

/// A decimal octet: one to three digits, without a leading zero, at most 255.
pub open spec fn octet_of(g: Seq<char>) -> Option<u64> {
    if g.len() <= 3 && (g.len() == 1 || g[0] != '0') {
        decimal_of(g, 255)
    } else {
        None
    }
}

fn parse_octet(g: &str) -> (r: Option<u8>)
    ensures
        r is Some <==> octet_of(g@) is Some,
        r matches Some(v) ==> octet_of(g@) == Some(v as u64),
{
    let n = g.unicode_len();
    if n > 3 || (n > 1 && g.get_char(0) == '0') {
        return None;
    }
    match parse_decimal(g, 255) {
        Some(v) => Some(v as u8),
        None => None,
    }
}

pub open spec fn is_hex_digit(c: char) -> bool {
    ('0' <= c && c <= '9') || ('a' <= c && c <= 'f') || ('A' <= c && c <= 'F')
}

pub open spec fn hex_digit_value(c: char) -> nat {
    if '0' <= c && c <= '9' {
        (c as nat - '0' as nat) as nat
    } else if 'a' <= c && c <= 'f' {
        (c as nat - 'a' as nat + 10) as nat
    } else {
        (c as nat - 'A' as nat + 10) as nat
    }
}

/// The value of a string of hexadecimal digits.
pub open spec fn hex_value(s: Seq<char>) -> nat
    decreases s.len(),
{
    if s.len() == 0 {
        0
    } else {
        hex_value(s.drop_last()) * 16 + hex_digit_value(s.last())
    }
}

/// A group of an IPv6 address: one to four hexadecimal digits.
pub open spec fn hex_group_of(g: Seq<char>) -> Option<u16> {
    if 1 <= g.len() <= 4 && forall|i: int| 0 <= i < g.len() ==> is_hex_digit(#[trigger] g[i]) {
        Some(hex_value(g) as u16)
    } else {
        None
    }
}

fn parse_hex_group(g: &str) -> (r: Option<u16>)
    ensures
        r == hex_group_of(g@),
{
    let n = g.unicode_len();
    if n < 1 || n > 4 {
        return None;
    }
    let mut v: u32 = 0;
    let mut i: usize = 0;
    while i < n
        invariant
            n == g@.len(),
            1 <= n <= 4,
            i <= n,
            forall|j: int| 0 <= j < i ==> is_hex_digit(#[trigger] g@[j]),
            v == hex_value(g@.take(i as int)),
            v < pow16(i as nat),
        decreases n - i,
    {
        let c = g.get_char(i);
        assert(g@.take(i + 1).drop_last() =~= g@.take(i as int));
        let d: u32 = if '0' <= c && c <= '9' {
            (c as u32) - ('0' as u32)
        } else if 'a' <= c && c <= 'f' {
            (c as u32) - ('a' as u32) + 10
        } else if 'A' <= c && c <= 'F' {
            (c as u32) - ('A' as u32) + 10
        } else {
            assert(!is_hex_digit(g@[i as int]));
            return None;
        };
        assert(pow16(i as nat + 1) == pow16(i as nat) * 16);
        assert(v * 16 + d < pow16(i as nat) * 16) by (nonlinear_arith)
            requires v < pow16(i as nat), d < 16;
        assert(pow16(i as nat) <= 4096) by {
            reveal_with_fuel(pow16, 5);
        }
        v = v * 16 + d;
        i = i + 1;
    }
    assert(g@.take(n as int) =~= g@);
    assert(pow16(n as nat) <= 65536) by {
        reveal_with_fuel(pow16, 5);
    }
    Some(v as u16)
}

pub open spec fn pow16(k: nat) -> nat
    decreases k,
{
    if k == 0 {
        1
    } else {
        pow16((k - 1) as nat) * 16
    }
}

/// An address in dotted-quad notation.
pub open spec fn ipv4_of(s: Seq<char>) -> Option<IpAddress> {
    let f = fields(s, '.');
    if f.len() == 4 && octet_of(f[0]) is Some && octet_of(f[1]) is Some && octet_of(f[2]) is Some
        && octet_of(f[3]) is Some {
        Some(
            IpAddress::V4(
                octet_of(f[0])->Some_0 as u8,
                octet_of(f[1])->Some_0 as u8,
                octet_of(f[2])->Some_0 as u8,
                octet_of(f[3])->Some_0 as u8,
            ),
        )
    } else {
        None
    }
}

/// The values of the groups `f`, if each is a group of one to four hexadecimal digits.
pub open spec fn hex_groups_of(f: Seq<Seq<char>>) -> Option<Seq<u16>> {
    if all_hex_groups(f) {
        Some(group_values(f))
    } else {
        None
    }
}

pub open spec fn all_hex_groups(f: Seq<Seq<char>>) -> bool {
    forall|i: int| 0 <= i < f.len() ==> (#[trigger] hex_group_of(f[i])) is Some
}

pub open spec fn group_values(f: Seq<Seq<char>>) -> Seq<u16> {
    f.map_values(|g: Seq<char>| hex_group_of(g)->Some_0)
}

/// The groups of the fields `f`, where the last field may be a dotted quad that
/// stands for two groups.
pub open spec fn groups_of(f: Seq<Seq<char>>) -> Option<Seq<u16>> {
    if f.len() > 0 && ipv4_of(f.last()) is Some {
        match (hex_groups_of(f.drop_last()), ipv4_of(f.last())) {
            (Some(g), Some(IpAddress::V4(a, b, c, d))) => Some(
                g.push((a as int * 256 + b as int) as u16).push((c as int * 256 + d as int) as u16),
            ),
            _ => None,
        }
    } else {
        hex_groups_of(f)
    }
}

/// The groups of a colon-separated list; the empty string is the empty list.
pub open spec fn group_list_of(s: Seq<char>, quad: bool) -> Option<Seq<u16>> {
    if s.len() == 0 {
        Some(Seq::empty())
    } else if quad {
        groups_of(fields(s, ':'))
    } else {
        hex_groups_of(fields(s, ':'))
    }
}

/// The index of the first `::` in `s` from `i` on.
pub open spec fn double_colon_from(s: Seq<char>, i: nat) -> Option<nat>
    decreases s.len() - i,
{
    if i + 1 >= s.len() {
        None
    } else if s[i as int] == ':' && s[i + 1int] == ':' {
        Some(i)
    } else {
        double_colon_from(s, i + 1)
    }
}

/// The eight groups of an IPv6 address in hexadecimal notation: eight groups, or
/// fewer with one `::` standing for one or more zero groups; the last two groups
/// may be written as a dotted quad.
pub open spec fn ipv6_groups_of(s: Seq<char>) -> Option<Seq<u16>> {
    match double_colon_from(s, 0) {
        None => match groups_of(fields(s, ':')) {
            Some(g) => if g.len() == 8 {
                Some(g)
            } else {
                None
            },
            None => None,
        },
        Some(k) => match (group_list_of(s.take(k as int), false), group_list_of(s.skip(k + 2int), true)) {
            (Some(h), Some(t)) => if h.len() + t.len() <= 7 {
                Some(h + Seq::new((8 - h.len() - t.len()) as nat, |i: int| 0u16) + t)
            } else {
                None
            },
            _ => None,
        },
    }
}

/// An IPv6 address in hexadecimal notation.
pub open spec fn ipv6_of(s: Seq<char>) -> Option<IpAddress> {
    match ipv6_groups_of(s) {
        Some(g) => Some(IpAddress::V6(g[0], g[1], g[2], g[3], g[4], g[5], g[6], g[7])),
        None => None,
    }
}

/// Reads a colon-separated list of hexadecimal groups, whose last field may be a
/// dotted quad where `quad` holds.
fn parse_groups(s: &str, quad: bool) -> (r: Option<Vec<u16>>)
    ensures
        quad ==> (r matches Some(v) ==> groups_of(fields(s@, ':')) == Some(v@)),
        quad ==> (r is None ==> groups_of(fields(s@, ':')) is None),
        !quad ==> (r matches Some(v) ==> hex_groups_of(fields(s@, ':')) == Some(v@)),
        !quad ==> (r is None ==> hex_groups_of(fields(s@, ':')) is None),
{
    let f = split_fields(s, ':');
    let ghost fs = fields(s@, ':');
    proof {
        assert(f@.len() == fs.len());
        assert(forall|i: int| 0 <= i < f@.len() ==> f@[i]@ == fs[i]);
    }
    let mut count: usize = f.len();
    let mut last: Option<IpAddress> = None;
    if quad && f.len() > 0 {
        last = parse_ipv4(f[f.len() - 1]);
        if last.is_some() {
            count = f.len() - 1;
        }
    }
    let ghost hs = fs.take(count as int);
    let mut groups: Vec<u16> = Vec::new();
    let mut i: usize = 0;
    while i < count
        invariant
            fs == fields(s@, ':'),
            f@.len() == fs.len(),
            count <= f@.len(),
            hs == fs.take(count as int),
            last is None ==> count == f@.len(),
            last is None && quad && fs.len() > 0 ==> ipv4_of(fs.last()) is None,
            last is Some ==> quad && fs.len() > 0 && count == fs.len() - 1 && last == ipv4_of(
                fs.last(),
            ),
            !quad ==> last is None,
            i <= count,
            forall|j: int| 0 <= j < f@.len() ==> f@[j]@ == fs[j],
            groups@.len() == i,
            forall|j: int| 0 <= j < i ==> Some(#[trigger] groups@[j]) == hex_group_of(hs[j]),
        decreases count - i,
    {
        match parse_hex_group(f[i]) {
            Some(v) => groups.push(v),
            None => {
                assert(hex_group_of(hs[i as int]) is None);
                assert(!all_hex_groups(hs));
                proof {
                    if last is None {
                        assert(hs =~= fs);
                    } else {
                        assert(hs =~= fs.drop_last());
                    }
                }
                return None;
            },
        }
        i = i + 1;
    }
    assert(all_hex_groups(hs)) by {
        assert forall|j: int| 0 <= j < hs.len() implies (#[trigger] hex_group_of(hs[j])) is Some by {
            assert(Some(groups@[j]) == hex_group_of(hs[j]));
        }
    }
    assert(groups@ =~= group_values(hs));
    match last {
        None => {
            assert(hs =~= fs);
            Some(groups)
        },
        Some(IpAddress::V4(a, b, c, d)) => {
            assert(hs =~= fs.drop_last());
            groups.push((a as u16) * 256 + b as u16);
            groups.push((c as u16) * 256 + d as u16);
            Some(groups)
        },
        Some(IpAddress::V6(..)) => None,
    }
}

/// Reads a colon-separated list of groups, empty for the empty string.
fn parse_group_list(s: &str, quad: bool) -> (r: Option<Vec<u16>>)
    ensures
        r matches Some(v) ==> group_list_of(s@, quad) == Some(v@),
        r is None ==> group_list_of(s@, quad) is None,
{
    if s.unicode_len() == 0 {
        let v: Vec<u16> = Vec::new();
        assert(v@ =~= Seq::<u16>::empty());
        Some(v)
    } else {
        parse_groups(s, quad)
    }
}

/// Reads an IPv6 address in hexadecimal notation.
pub fn parse_ipv6(s: &str) -> (r: Option<IpAddress>)
    ensures
        r == ipv6_of(s@),
{
    let n = s.unicode_len();
    let mut k: usize = 0;
    let mut found = false;
    while !found && n > 0 && k < n - 1
        invariant
            n == s@.len(),
            found ==> k + 1 < n && double_colon_from(s@, 0) == Some(k as nat),
            !found ==> double_colon_from(s@, 0) == double_colon_from(s@, k as nat),
        decreases n - k - (if found { 1int } else { 0int }),
    {
        if s.get_char(k) == ':' && s.get_char(k + 1) == ':' {
            found = true;
        } else {
            k = k + 1;
        }
    }
    if !found {
        let g = match parse_groups(s, true) {
            Some(g) => g,
            None => return None,
        };
        if g.len() != 8 {
            return None;
        }
        return Some(IpAddress::V6(g[0], g[1], g[2], g[3], g[4], g[5], g[6], g[7]));
    }
    let head = s.substring_char(0, k);
    let tail = s.substring_char(k + 2, n);
    assert(head@ =~= s@.take(k as int));
    assert(tail@ =~= s@.skip(k + 2));
    let h = match parse_group_list(head, false) {
        Some(h) => h,
        None => return None,
    };
    let t = match parse_group_list(tail, true) {
        Some(t) => t,
        None => return None,
    };
    if h.len() > 7 || t.len() > 7 - h.len() {
        return None;
    }
    let zeros: usize = 8 - h.len() - t.len();
    let ghost want = h@ + Seq::new(zeros as nat, |i: int| 0u16) + t@;
    let mut g: Vec<u16> = Vec::new();
    let mut i: usize = 0;
    while i < 8
        invariant
            h@.len() + zeros + t@.len() == 8,
            want == h@ + Seq::new(zeros as nat, |i: int| 0u16) + t@,
            want.len() == 8,
            i <= 8,
            g@ == want.take(i as int),
        decreases 8 - i,
    {
        let v: u16 = if i < h.len() {
            h[i]
        } else if i < h.len() + zeros {
            0
        } else {
            t[i - h.len() - zeros]
        };
        assert(v == want[i as int]);
        g.push(v);
        assert(g@ =~= want.take(i + 1));
        i = i + 1;
    }
    assert(g@ =~= want);
    Some(IpAddress::V6(g[0], g[1], g[2], g[3], g[4], g[5], g[6], g[7]))
}

pub open spec fn ip_address_of(s: Seq<char>) -> Option<IpAddress> {
    match ipv4_of(s) {
        Some(a) => Some(a),
        None => ipv6_of(s),
    }
}

/// Reads an IPv4 address in dotted-quad notation, or an IPv6 address in hexadecimal
/// notation.
pub fn parse_ip_address(s: &str) -> (r: Option<IpAddress>)
    ensures
        r == ip_address_of(s@),
{
    match parse_ipv4(s) {
        Some(a) => Some(a),
        None => parse_ipv6(s),
    }
}

/// Reads an IPv4 address in dotted-quad notation.
pub fn parse_ipv4(s: &str) -> (r: Option<IpAddress>)
    ensures
        r == ipv4_of(s@),
{
    let f = split_fields(s, '.');
    proof {
        assert(f@.len() == fields(s@, '.').len());
        assert(forall|i: int| 0 <= i < f@.len() ==> f@[i]@ == fields(s@, '.')[i]);
    }
    if f.len() == 4 {
        let a = parse_octet(f[0]);
        let b = parse_octet(f[1]);
        let c = parse_octet(f[2]);
        let d = parse_octet(f[3]);
        if let (Some(a), Some(b), Some(c), Some(d)) = (a, b, c, d) {
            return Some(IpAddress::V4(a, b, c, d));
        }
    }
    None
}

} // verus!

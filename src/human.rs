//! Text helpers shared by the sensors.
use vstd::prelude::*;
use crate::output::{IconPosition, IconStyle};
use crate::words::{char_is_space, is_space};
use crate::text::{decimal, digit_char, digit_to_char, push_char, push_decimal, push_repeated, repeat_char};

verus! {

/// `text` with `icon` placed by `position`, `spacing` spaces apart; `text` alone when
/// icons are off or the icon is empty.
pub open spec fn spec_with_icon(
    text: Seq<char>,
    icon: Seq<char>,
    style: IconStyle,
    position: IconPosition,
    spacing: u8,
) -> Seq<char> {
    if style == IconStyle::Plain || icon.len() == 0 {
        text
    } else if position == IconPosition::Before {
        icon + repeat_char(' ', spacing as nat) + text
    } else {
        text + repeat_char(' ', spacing as nat) + icon
    }
}

/// Places an icon before or after a text.
pub fn with_icon(text: &str, icon: &str, style: IconStyle, position: IconPosition, spacing: u8) -> (r: String)
    ensures
        r@ == spec_with_icon(text@, icon@, style, position, spacing),
{
    if style == IconStyle::Plain || icon.unicode_len() == 0 {
        return String::from_str(text);
    }
    match position {
        IconPosition::Before => {
            let mut s = String::from_str(icon);
            push_repeated(&mut s, ' ', spacing as u64);
            s.append(text);
            s
        },
        IconPosition::After => {
            let mut s = String::from_str(text);
            push_repeated(&mut s, ' ', spacing as u64);
            s.append(icon);
            s
        },
    }
}

/// `body` wrapped in a Pango span of colour `color`.
pub open spec fn span(color: Seq<char>, body: Seq<char>) -> Seq<char> {
    "<span color=\""@ + color + "\">"@ + body + "</span>"@
}

/// A sparkline, coloured when a colour is given.
pub fn colored_sparkline(sparkline: &str, color: Option<&str>) -> (r: String)
    ensures
        r@ == match color {
            Some(c) => span(c@, sparkline@),
            None => sparkline@,
        },
{
    match color {
        Some(c) => {
            let mut s = String::from_str("<span color=\"");
            s.append(c);
            s.append("\">");
            s.append(sparkline);
            s.append("</span>");
            s
        },
        None => String::from_str(sparkline),
    }
}

/// `1024^k`.
pub open spec fn kib_pow(k: nat) -> nat
    decreases k,
{
    if k == 0 { 1 } else { 1024 * kib_pow((k - 1) as nat) }
}

/// The binary unit of a byte count: the largest `k <= 5` with `1024^k <= bytes`, or 0.
pub open spec fn byte_unit(bytes: nat) -> nat {
    if bytes >= kib_pow(5) { 5 }
    else if bytes >= kib_pow(4) { 4 }
    else if bytes >= kib_pow(3) { 3 }
    else if bytes >= kib_pow(2) { 2 }
    else if bytes >= kib_pow(1) { 1 }
    else { 0 }
}

/// The suffix of binary unit `k`.
pub open spec fn byte_unit_name(k: nat) -> Seq<char> {
    if k == 0 { "B"@ }
    else if k == 1 { "KB"@ }
    else if k == 2 { "MB"@ }
    else if k == 3 { "GB"@ }
    else if k == 4 { "TB"@ }
    else { "PB"@ }
}

/// `n / d` in tenths, rounded to nearest with ties to even.
pub open spec fn tenths(n: nat, d: nat) -> nat
    recommends
        d > 0,
{
    let q = n * 10 / d;
    let rem = n * 10 % d;
    if 2 * rem > d || (2 * rem == d && q % 2 == 1) { q + 1 } else { q }
}

/// A count of tenths as text with one decimal.
pub open spec fn one_decimal(t: nat) -> Seq<char> {
    decimal(t / 10) + seq!['.'] + seq![digit_char(t % 10)]
}

/// A byte count in binary units: whole bytes below 1 KB, else one decimal.
pub open spec fn spec_bytes_to_human(bytes: nat) -> Seq<char> {
    let k = byte_unit(bytes);
    if k == 0 {
        decimal(bytes) + "B"@
    } else {
        one_decimal(tenths(bytes, kib_pow(k))) + byte_unit_name(k)
    }
}

fn unit_name(k: usize) -> (r: &'static str)
    requires
        k <= 5,
    ensures
        r@ == byte_unit_name(k as nat),
{
    match k {
        0 => "B",
        1 => "KB",
        2 => "MB",
        3 => "GB",
        4 => "TB",
        _ => "PB",
    }
}

/// Appends `t` tenths with one decimal.
fn push_one_decimal(s: &mut String, t: u128)
    requires
        t <= u64::MAX,
    ensures
        final(s)@ == old(s)@ + one_decimal(t as nat),
{
    push_decimal(s, (t / 10) as u64);
    push_char(s, '.');
    push_char(s, digit_to_char((t % 10) as u64));
    assert(final(s)@ =~= old(s)@ + one_decimal(t as nat));
}

/// Formats a byte count in binary units (1024-based): whole bytes below 1 KB, else one
/// decimal rounded to nearest, ties to even.
pub fn bytes_to_human(bytes: u64) -> (r: String)
    ensures
        r@ == spec_bytes_to_human(bytes as nat),
{
    let mut k: usize = 0;
    let mut div: u64 = 1;
    proof {
        assert(kib_pow(1) == 1024 * kib_pow(0));
        assert(bytes as nat >= kib_pow(1) <==> bytes / 1024 >= div);
    }
    while k < 5 && bytes / 1024 >= div
        invariant
            k <= 5,
            div as nat == kib_pow(k as nat),
            forall|j: nat| 1 <= j <= k ==> bytes as nat >= kib_pow(j),
            k < 5 ==> (bytes as nat >= kib_pow((k + 1) as nat) <==> bytes / 1024 >= div),
        decreases 5 - k,
    {
        div = div * 1024;
        k = k + 1;
        assert(kib_pow(k as nat) == 1024 * kib_pow((k - 1) as nat));
        assert forall|j: nat| 1 <= j <= k implies bytes as nat >= kib_pow(j) by {
            if j < k {}
        }
        if k < 5 {
            assert(kib_pow((k + 1) as nat) == 1024 * kib_pow(k as nat));
            let ghost dv = div as int;
            let ghost b = bytes as int;
            assert(b >= 1024 * dv <==> b / 1024 >= dv) by (nonlinear_arith);
        }
    }
    proof {
        reveal_with_fuel(kib_pow, 6);
        assert(k == byte_unit(bytes as nat));
    }
    if k == 0 {
        let mut s = String::new();
        push_decimal(&mut s, bytes);
        s.append("B");
        return s;
    }
    let n: u128 = bytes as u128 * 10;
    let d: u128 = div as u128;
    let q = n / d;
    let rem = n % d;
    let t = if 2 * rem > d || (2 * rem == d && q % 2 == 1) { q + 1 } else { q };
    proof {
        assert(q <= n);
        assert(t as nat == tenths(bytes as nat, div as nat));
        assert(t <= u64::MAX) by (nonlinear_arith)
            requires t <= q + 1, q == n / d, d >= 1024, n == bytes as u128 * 10;
    }
    let mut s = String::new();
    push_one_decimal(&mut s, t);
    s.append(unit_name(k));
    proof {
        assert(s@ =~= spec_bytes_to_human(bytes as nat));
    }
    s
}

/// A transfer rate: the byte count per second in binary units, then `/s`.
pub fn rate_to_human(bytes_per_second: u64) -> (r: String)
    ensures
        r@ == spec_bytes_to_human(bytes_per_second as nat) + "/s"@,
{
    let mut s = bytes_to_human(bytes_per_second);
    s.append("/s");
    s
}

/// `body`, wrapped in a span of colour `color` where one is given.
pub open spec fn maybe_span(color: Option<Seq<char>>, body: Seq<char>) -> Seq<char> {
    match color {
        Some(c) => span(c, body),
        None => body,
    }
}

/// The view of an optional text.
pub open spec fn opt_str_view(o: Option<&str>) -> Option<Seq<char>> {
    match o {
        Some(s) => Some(s@),
        None => None,
    }
}

/// Whether `s` is empty or white space only.
pub open spec fn blank(s: Seq<char>) -> bool {
    forall|i: int| 0 <= i < s.len() ==> is_space(s[i])
}

/// `text` and `icon`, each coloured where a colour is given, placed by `position`
/// `spacing` spaces apart; the coloured text alone when icons are off or the icon is
/// blank.
pub open spec fn spec_with_icon_and_colors(
    text: Seq<char>,
    icon: Seq<char>,
    style: IconStyle,
    position: IconPosition,
    spacing: u8,
    icon_color: Option<Seq<char>>,
    text_color: Option<Seq<char>>,
) -> Seq<char> {
    let text_part = maybe_span(text_color, text);
    if style == IconStyle::Plain || blank(icon) {
        text_part
    } else {
        let icon_part = maybe_span(icon_color, icon);
        if position == IconPosition::Before {
            icon_part + repeat_char(' ', spacing as nat) + text_part
        } else {
            text_part + repeat_char(' ', spacing as nat) + icon_part
        }
    }
}

/// `body` wrapped in a span of colour `color` where one is given.
fn colored(body: &str, color: Option<&str>) -> (r: String)
    ensures
        r@ == maybe_span(opt_str_view(color), body@),
{
    colored_sparkline(body, color)
}

/// Whether `s` is empty or white space only.
fn is_blank(s: &str) -> (r: bool)
    ensures
        r == blank(s@),
{
    let n = s.unicode_len();
    let mut i: usize = 0;
    while i < n
        invariant
            n == s@.len(),
            i <= n,
            forall|j: int| 0 <= j < i ==> is_space(s@[j]),
        decreases n - i,
    {
        if !char_is_space(s.get_char(i)) {
            return false;
        }
        i = i + 1;
    }
    true
}

/// Places an icon before or after a text, colouring each with Pango markup where a
/// colour is given.
pub fn with_icon_and_colors(
    text: &str,
    icon: &str,
    style: IconStyle,
    position: IconPosition,
    spacing: u8,
    icon_color: Option<&str>,
    text_color: Option<&str>,
) -> (r: String)
    ensures
        r@ == spec_with_icon_and_colors(
            text@,
            icon@,
            style,
            position,
            spacing,
            opt_str_view(icon_color),
            opt_str_view(text_color),
        ),
{
    let text_part = colored(text, text_color);
    if style == IconStyle::Plain || is_blank(icon) {
        return text_part;
    }
    let icon_part = colored(icon, icon_color);
    match position {
        IconPosition::Before => {
            let mut s = icon_part;
            push_repeated(&mut s, ' ', spacing as u64);
            s.append(text_part.as_str());
            s
        },
        IconPosition::After => {
            let mut s = text_part;
            push_repeated(&mut s, ' ', spacing as u64);
            s.append(icon_part.as_str());
            s
        },
    }
}

} // verus!

//! The network-signal source: parsing the status tool's output, classifying a
//! percentage into bands, and the signal slot's fail-soft rule.

use vstd::prelude::*;

verus! {

/// Discrete signal-strength bands of the active wireless connection.
#[derive(Debug, Clone, Copy, PartialEq, Eq, Structural)]
pub enum WifiSignalBars {
    NoSignal,
    Weak,
    Fair,
    Good,
    Excellent,
}

/// The band of a signal percentage: 0, 1..=25, 26..=50, 51..=75, 76..=100;
/// anything above 100 is not a percentage and counts as no signal.
pub open spec fn bars_of(signal: u32) -> WifiSignalBars {
    if signal == 0 {
        WifiSignalBars::NoSignal
    } else if signal <= 25 {
        WifiSignalBars::Weak
    } else if signal <= 50 {
        WifiSignalBars::Fair
    } else if signal <= 75 {
        WifiSignalBars::Good
    } else if signal <= 100 {
        WifiSignalBars::Excellent
    } else {
        WifiSignalBars::NoSignal
    }
}

/// Classifies a signal percentage into its band.
pub fn signal_to_bars(signal: u32) -> (r: WifiSignalBars)
    ensures
        r == bars_of(signal),
{
    if signal == 0 {
        WifiSignalBars::NoSignal
    } else if signal <= 25 {
        WifiSignalBars::Weak
    } else if signal <= 50 {
        WifiSignalBars::Fair
    } else if signal <= 75 {
        WifiSignalBars::Good
    } else if signal <= 100 {
        WifiSignalBars::Excellent
    } else {
        WifiSignalBars::NoSignal
    }
}

impl WifiSignalBars {
    /// The icon that shows this band.
    pub open spec fn icon_path(self) -> Seq<char> {
        match self {
            WifiSignalBars::NoSignal => "/home/jasper/res/0-wifi.png"@,
            WifiSignalBars::Weak => "/home/jasper/res/1-wifi.png"@,
            WifiSignalBars::Fair => "/home/jasper/res/2-wifi.png"@,
            WifiSignalBars::Good => "/home/jasper/res/3-wifi.png"@,
            WifiSignalBars::Excellent => "/home/jasper/res/4-wifi.png"@,
        }
    }

    /// The path of the icon that shows this band.
    pub fn to_path(self) -> (r: String)
        ensures
            r@ == self.icon_path(),
    {
        match self {
            WifiSignalBars::NoSignal => String::from_str("/home/jasper/res/0-wifi.png"),
            WifiSignalBars::Weak => String::from_str("/home/jasper/res/1-wifi.png"),
            WifiSignalBars::Fair => String::from_str("/home/jasper/res/2-wifi.png"),
            WifiSignalBars::Good => String::from_str("/home/jasper/res/3-wifi.png"),
            WifiSignalBars::Excellent => String::from_str("/home/jasper/res/4-wifi.png"),
        }
    }
}

pub open spec fn is_digit(c: char) -> bool {
    '0' <= c && c <= '9'
}

pub open spec fn all_digits(s: Seq<char>) -> bool {
    forall|i: int| 0 <= i < s.len() ==> is_digit(#[trigger] s[i])
}

/// The number that a string of decimal digits spells.
pub open spec fn decimal_value(s: Seq<char>) -> nat
    decreases s.len(),
{
    if s.len() == 0 {
        0
    } else {
        decimal_value(s.drop_last()) * 10 + ((s.last() as u32) - ('0' as u32)) as nat
    }
}

/// A decimal `u32` as std reads one: an optional '+', then one or more digits
/// whose value fits in 32 bits.
pub open spec fn parse_u32_spec(s: Seq<char>) -> Option<u32> {
    let d = if s.len() > 0 && s[0] == '+' { s.skip(1) } else { s };
    if d.len() > 0 && all_digits(d) && decimal_value(d) <= u32::MAX {
        Some(decimal_value(d) as u32)
    } else {
        None
    }
}

/// The signal of one status line, when it is `yes:<percentage>`.
pub open spec fn active_signal(line: Seq<char>) -> Option<u32> {
    if line.len() >= 4 && line.take(4) == seq!['y', 'e', 's', ':'] {
        parse_u32_spec(line.skip(4))
    } else {
        None
    }
}

/// The number of characters from `i` up to the next newline or the end.
pub open spec fn line_len(s: Seq<char>, i: int) -> nat
    decreases s.len() - i,
{
    if i < 0 || i >= s.len() || s[i] == '\n' {
        0
    } else {
        1 + line_len(s, i + 1)
    }
}

/// The line that starts at `start`, without its line ending ("\n" or "\r\n").
pub open spec fn line_at(s: Seq<char>, start: int) -> Seq<char> {
    let e = start + line_len(s, start);
    let raw = s.subrange(start, e);
    if e < s.len() && raw.len() > 0 && raw.last() == '\r' {
        raw.drop_last()
    } else {
        raw
    }
}

/// The signal of the first active line at or after the line that starts at `start`.
pub open spec fn signal_from(s: Seq<char>, start: int) -> Option<u32>
    decreases s.len() - start,
{
    if start < 0 || start >= s.len() {
        None
    } else {
        match active_signal(line_at(s, start)) {
            Some(p) => Some(p),
            None => if start + line_len(s, start) < s.len() {
                signal_from(s, start + line_len(s, start) + 1)
            } else {
                None
            },
        }
    }
}

/// The signal percentage of the first line of the tool's output marked active.
pub open spec fn output_signal(s: Seq<char>) -> Option<u32> {
    signal_from(s, 0)
}

proof fn lemma_decimal_prefix(d: Seq<char>, k: int)
    requires
        0 <= k <= d.len(),
    ensures
        decimal_value(d) >= decimal_value(d.take(k)),
    decreases d.len(),
{
    if k < d.len() {
        lemma_decimal_prefix(d.drop_last(), k);
        assert(d.drop_last().take(k) =~= d.take(k));
    } else {
        assert(d.take(k) =~= d);
    }
}

/// The characters of a string, one per element.
pub fn chars_of(s: &str) -> (r: Vec<char>)
    ensures
        r@ == s@,
{
    let n = s.unicode_len();
    let mut r: Vec<char> = Vec::new();
    let mut i: usize = 0;
    while i < n
        invariant
            i <= n,
            n == s@.len(),
            r@ == s@.take(i as int),
        decreases n - i,
    {
        r.push(s.get_char(i));
        i = i + 1;
        assert(r@ =~= s@.take(i as int));
    }
    assert(s@.take(n as int) =~= s@);
    r
}

/// Reads the decimal `u32` spelled by `chars[from..to]`.
pub fn parse_u32(chars: &Vec<char>, from: usize, to: usize) -> (r: Option<u32>)
    requires
        from <= to <= chars@.len(),
    ensures
        r == parse_u32_spec(chars@.subrange(from as int, to as int)),
{
    let ghost s = chars@.subrange(from as int, to as int);
    let mut start = from;
    if start < to && chars[start] == '+' {
        start = start + 1;
    }
    let ghost d = chars@.subrange(start as int, to as int);
    assert(d =~= (if s.len() > 0 && s[0] == '+' { s.skip(1) } else { s }));
    if start == to {
        return None;
    }
    let mut acc: u64 = 0;
    let mut i = start;
    while i < to
        invariant
            from <= start <= i <= to <= chars@.len(),
            s == chars@.subrange(from as int, to as int),
            d == chars@.subrange(start as int, to as int),
            d == (if s.len() > 0 && s[0] == '+' { s.skip(1) } else { s }),
            d.len() > 0,
            all_digits(chars@.subrange(start as int, i as int)),
            acc == decimal_value(chars@.subrange(start as int, i as int)),
            acc <= u32::MAX,
        decreases to - i,
    {
        let c = chars[i];
        if !('0' <= c && c <= '9') {
            assert(!is_digit(d[i - start]));
            return None;
        }
        let ghost prev = chars@.subrange(start as int, i as int);
        let ghost next = chars@.subrange(start as int, i + 1);
        assert(next.drop_last() =~= prev);
        acc = acc * 10 + ((c as u32) - ('0' as u32)) as u64;
        i = i + 1;
        assert(all_digits(next));
        if acc > 0xffff_ffff {
            proof {
                assert(d.take(i - start) =~= next);
                lemma_decimal_prefix(d, i - start);
            }
            return None;
        }
    }
    assert(chars@.subrange(start as int, i as int) =~= d);
    Some(acc as u32)
}

/// The signal of the line `chars[a..b]`, when it is `yes:<percentage>`.
fn line_signal(chars: &Vec<char>, a: usize, b: usize) -> (r: Option<u32>)
    requires
        a <= b <= chars@.len(),
    ensures
        r == active_signal(chars@.subrange(a as int, b as int)),
{
    let ghost line = chars@.subrange(a as int, b as int);
    if b - a >= 4 && chars[a] == 'y' && chars[a + 1] == 'e' && chars[a + 2] == 's' && chars[a + 3] == ':' {
        assert(line.take(4) =~= seq!['y', 'e', 's', ':']);
        assert(line.skip(4) =~= chars@.subrange(a + 4, b as int));
        parse_u32(chars, a + 4, b)
    } else {
        assert(line.len() >= 4 ==> line.take(4)[0] == line[0] && line.take(4)[1] == line[1]
            && line.take(4)[2] == line[2] && line.take(4)[3] == line[3]);
        None
    }
}

/// The signal percentage of the first line of the network tool's output that is
/// marked active (`yes:<percentage>`); lines that do not parse are passed over.
pub fn signal_from_output(output: &str) -> (r: Option<u32>)
    ensures
        r == output_signal(output@),
{
    let chars = chars_of(output);
    let n = chars.len();
    let mut start: usize = 0;
    while start < n
        invariant
            start <= n,
            n == chars@.len(),
            chars@ == output@,
            signal_from(chars@, 0) == signal_from(chars@, start as int),
        decreases n - start,
    {
        let mut e = start;
        while e < n && chars[e] != '\n'
            invariant
                start <= e <= n,
                n == chars@.len(),
                line_len(chars@, start as int) == (e - start) + line_len(chars@, e as int),
            decreases n - e,
        {
            e = e + 1;
        }
        assert(line_len(chars@, e as int) == 0);
        let mut lend = e;
        if e < n && lend > start && chars[lend - 1] == '\r' {
            lend = lend - 1;
        }
        assert(chars@.subrange(start as int, lend as int) =~= line_at(chars@, start as int));
        match line_signal(&chars, start, lend) {
            Some(p) => return Some(p),
            None => {},
        }
        if e == n {
            return None;
        }
        start = e + 1;
    }
    None
}

/// The band of the first active line of the network tool's output, if any.
pub fn signal_bars_from_output(output: &str) -> (r: Option<WifiSignalBars>)
    ensures
        match output_signal(output@) {
            Some(p) => r == Some(bars_of(p)),
            None => r is None,
        },
{
    match signal_from_output(output) {
        Some(p) => Some(signal_to_bars(p)),
        None => None,
    }
}

/// The band to publish after a poll: the polled one, or the previous one when
/// the poll found nothing.
pub open spec fn signal_after(prev: WifiSignalBars, polled: Option<WifiSignalBars>) -> WifiSignalBars {
    match polled {
        Some(b) => b,
        None => prev,
    }
}

/// The band that the signal slot holds after a poll.
pub fn apply_signal_poll(prev: WifiSignalBars, polled: Option<WifiSignalBars>) -> (r: WifiSignalBars)
    ensures
        r == signal_after(prev, polled),
{
    match polled {
        Some(b) => b,
        None => prev,
    }
}

/// A failed poll leaves the published band as it was; a successful one
/// publishes what it read.
pub proof fn lemma_failed_poll_keeps_signal(prev: WifiSignalBars, polled: Option<WifiSignalBars>)
    ensures
        polled is None ==> signal_after(prev, polled) == prev,
        polled matches Some(b) ==> signal_after(prev, polled) == b,
{
}

} // verus!

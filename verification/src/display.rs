//! Display modules: each turns an entry into one fragment of its row.

use vstd::prelude::*;
use crate::entry::{Entry, EntryView};
use crate::icons::{get_file_icon, icon_of};
use crate::text::string_of;

verus! {

/// The pattern in which a creation time is written: weekday, month, day of
/// the month, time of day, year.
pub const DATE_PATTERN: &'static str = "%a %b %e %H:%M:%S %Y";

/// The first second that chrono can hold as a UTC time: the start of the
/// year -262143, counted from the Unix epoch.
pub const MIN_TIMESTAMP: i64 = -8_334_601_228_800;

/// The last second that chrono can hold as a UTC time: the end of the
/// year 262142, counted from the Unix epoch.
pub const MAX_TIMESTAMP: i64 = 8_210_266_876_799;

/// Whether chrono can hold the UTC time that lies `secs` seconds after the
/// Unix epoch.
pub open spec fn timestamp_in_range(secs: i64) -> bool {
    MIN_TIMESTAMP <= secs <= MAX_TIMESTAMP
}

/// The text that chrono writes, in the given pattern, for the UTC time
/// that lies `secs` seconds after the Unix epoch.
pub uninterp spec fn formatted_timestamp(secs: i64, pattern: Seq<char>) -> Seq<char>;

/// `DateTime::from_timestamp` with no nanoseconds, then `DateTime::format`
/// with the pattern. `from_timestamp` returns a time exactly for the
/// seconds from `MIN_TIMESTAMP` to `MAX_TIMESTAMP`, the years that chrono's
/// dates span; what `format` writes for it is a function of the seconds
/// and the pattern alone. Only `DATE_PATTERN` is admitted: writing a time
/// in a pattern that chrono cannot parse panics.
#[verifier::external_body]
pub(crate) fn format_timestamp(secs: i64, pattern: &str) -> (text: Option<String>)
    requires
        pattern@ == DATE_PATTERN@,
    ensures
        text.is_some() == timestamp_in_range(secs),
        text matches Some(written) ==> written@ == formatted_timestamp(secs, pattern@),
{
    match chrono::DateTime::from_timestamp(secs, 0) {
        Some(time) => Some(time.format(pattern).to_string()),
        None => None,
    }
}

/// The creation time `created`, in seconds since the Unix epoch, as text.
pub open spec fn date_text(created: u64) -> Seq<char> {
    formatted_timestamp(signed_seconds(created), DATE_PATTERN@)
}

/// The seconds of a creation time as a signed number: values above
/// `i64::MAX` wrap around to negative ones.
pub open spec fn signed_seconds(created: u64) -> i64 {
    if created <= i64::MAX as u64 {
        created as i64
    } else {
        (created - 0x1_0000_0000_0000_0000) as i64
    }
}

fn to_signed(created: u64) -> (secs: i64)
    ensures
        secs == signed_seconds(created),
{
    if created <= 0x7fff_ffff_ffff_ffff {
        created as i64
    } else {
        let above: u64 = created - 0x8000_0000_0000_0000;
        (above as i64) + i64::MIN
    }
}

/// The decimal digit for a value below ten.
pub open spec fn digit_char(d: nat) -> char {
    if d == 0 {
        '0'
    } else if d == 1 {
        '1'
    } else if d == 2 {
        '2'
    } else if d == 3 {
        '3'
    } else if d == 4 {
        '4'
    } else if d == 5 {
        '5'
    } else if d == 6 {
        '6'
    } else if d == 7 {
        '7'
    } else if d == 8 {
        '8'
    } else {
        '9'
    }
}

/// A number in decimal, without leading zeros.
pub open spec fn decimal(n: nat) -> Seq<char>
    decreases n,
{
    if n < 10 {
        seq![digit_char(n)]
    } else {
        decimal(n / 10).push(digit_char(n % 10))
    }
}

/// `count` spaces.
pub open spec fn spaces(count: nat) -> Seq<char> {
    Seq::new(count, |i: int| ' ')
}

/// The text with spaces before it, as many as it is shorter than `width`.
pub open spec fn right_aligned(text: Seq<char>, width: nat) -> Seq<char> {
    if text.len() >= width {
        text
    } else {
        spaces((width - text.len()) as nat) + text
    }
}

/// 2 to the power 53: from here on a double no longer holds every integer.
pub const EXACT_LIMIT: u64 = 0x20_0000_0000_0000;

/// The distance between neighbouring doubles around `size`.
pub open spec fn double_spacing(size: nat) -> nat
    decreases size,
{
    if size < EXACT_LIMIT {
        1
    } else {
        2 * double_spacing(size / 2)
    }
}

/// The value of `size` as a double: the nearest multiple of the spacing,
/// and of two equally near ones that with the even quotient.
pub open spec fn as_double(size: nat) -> nat {
    let q = double_spacing(size);
    let whole = size / q;
    let rest = size % q;
    if 2 * rest > q || (2 * rest == q && whole % 2 == 1) {
        (whole + 1) * q
    } else {
        whole * q
    }
}

/// The number shown before the unit: the size in whole units, computed on
/// doubles and cut off behind the point.
pub open spec fn units_shown(size: u64) -> nat {
    if size < 0x400 {
        size as nat
    } else if size < 0x10_0000 {
        as_double(size as nat) / 0x400
    } else if size < 0x4000_0000 {
        as_double(size as nat) / 0x10_0000
    } else if size < 0x100_0000_0000 {
        as_double(size as nat) / 0x4000_0000
    } else {
        as_double(size as nat) / 0x100_0000_0000
    }
}

/// The unit in which a size is shown, with the blanks before it.
pub open spec fn unit_label(size: u64) -> Seq<char> {
    if size < 0x400 {
        seq![' ', ' ', 'B']
    } else if size < 0x10_0000 {
        seq![' ', 'K', 'B']
    } else if size < 0x4000_0000 {
        seq![' ', 'M', 'B']
    } else if size < 0x100_0000_0000 {
        seq![' ', 'G', 'B']
    } else {
        seq![' ', 'T', 'B']
    }
}

/// The size column of an entry: empty for a directory; for a file the
/// number of whole units, right-aligned in three columns, and the unit.
pub open spec fn size_text(entry: EntryView) -> Seq<char> {
    if entry.is_dir {
        Seq::empty()
    } else {
        right_aligned(decimal(units_shown(entry.size)), 3) + unit_label(entry.size)
    }
}

fn digit(d: u64) -> (c: char)
    requires
        d < 10,
    ensures
        c == digit_char(d as nat),
{
    if d == 0 {
        '0'
    } else if d == 1 {
        '1'
    } else if d == 2 {
        '2'
    } else if d == 3 {
        '3'
    } else if d == 4 {
        '4'
    } else if d == 5 {
        '5'
    } else if d == 6 {
        '6'
    } else if d == 7 {
        '7'
    } else if d == 8 {
        '8'
    } else {
        '9'
    }
}

/// The decimal digits of `n`.
pub fn decimal_digits(n: u64) -> (digits: Vec<char>)
    ensures
        digits@ == decimal(n as nat),
    decreases n,
{
    if n < 10 {
        let mut digits: Vec<char> = Vec::new();
        digits.push(digit(n));
        assert(digits@ =~= seq![digit_char(n as nat)]);
        digits
    } else {
        let mut digits = decimal_digits(n / 10);
        digits.push(digit(n % 10));
        digits
    }
}

fn align_right(text: Vec<char>, width: usize) -> (out: Vec<char>)
    ensures
        out@ == right_aligned(text@, width as nat),
{
    if text.len() >= width {
        return text;
    }
    let missing: usize = width - text.len();
    let mut out: Vec<char> = Vec::new();
    let mut i: usize = 0;
    while i < missing
        invariant
            i <= missing,
            out@ =~= spaces(i as nat),
        decreases missing - i,
    {
        out.push(' ');
        i += 1;
    }
    let mut rest = text;
    let ghost body = rest@;
    out.append(&mut rest);
    assert(out@ =~= spaces(missing as nat) + body);
    out
}

/// What a display module is: any way to turn an entry into a fragment.
pub trait DisplayModule {
    /// Whether `fragment` is a text that this module may give for `entry`.
    /// A module that says nothing of itself may give any text.
    open spec fn renders(&self, entry: EntryView, fragment: Seq<char>) -> bool {
        true
    }

    /// The fragment for `entry`.
    fn render(&self, entry: &Entry) -> (fragment: String)
        ensures
            self.renders(entry@, fragment@),
    ;
}

/// The glyph of the entry, chosen by its name.
pub fn get_icon(entry: &Entry) -> (text: String)
    ensures
        text@ == icon_of(entry@.name),
{
    get_file_icon(entry.name.as_str()).to_owned()
}

/// The name of the entry as shown.
pub fn get_name(entry: &Entry) -> (text: String)
    ensures
        text@ == entry@.name,
{
    entry.name.clone()
}

/// The creation time of the entry in UTC, written in `DATE_PATTERN`. The
/// time has to be one that chrono can hold.
pub fn get_creation_date(entry: &Entry) -> (text: String)
    requires
        timestamp_in_range(signed_seconds(entry.created)),
    ensures
        text@ == date_text(entry.created),
{
    match format_timestamp(to_signed(entry.created), DATE_PATTERN) {
        Some(text) => text,
        None => String::new(),
    }
}

/// The creation time of the entry as text, or the empty text where the
/// time lies outside what chrono can hold.
pub open spec fn creation_text(entry: EntryView) -> Seq<char> {
    if timestamp_in_range(signed_seconds(entry.created)) {
        date_text(entry.created)
    } else {
        Seq::empty()
    }
}

/// The creation time of the entry in UTC, written in `DATE_PATTERN`, or
/// the empty text where chrono cannot hold the time.
pub fn creation_date_or_blank(entry: &Entry) -> (text: String)
    ensures
        text@ == creation_text(entry@),
{
    let secs = to_signed(entry.created);
    if MIN_TIMESTAMP <= secs && secs <= MAX_TIMESTAMP {
        get_creation_date(entry)
    } else {
        String::new()
    }
}

/// Below 2 to the power 53 a double holds the size itself.
pub proof fn lemma_small_sizes_exact(size: nat)
    requires
        size < EXACT_LIMIT,
    ensures
        as_double(size) == size,
{
    assert(double_spacing(size) == 1);
    assert(size / 1 == size && size % 1 == 0);
}

fn rounded_units(size: u64, unit: u64) -> (shown: u64)
    requires
        size >= EXACT_LIMIT,
        unit == 0x100_0000_0000,
    ensures
        shown == as_double(size as nat) / (unit as nat),
{
    let mut q: u64 = 1;
    assert(size as nat / 1 == size as nat);
    while size / q >= EXACT_LIMIT
        invariant
            1 <= q <= 4096,
            double_spacing(size as nat) == q * double_spacing(size as nat / q as nat),
        decreases 8192 - q,
    {
        proof {
            let s = size as int;
            let d = q as int;
            let x = s / d;
            assert(x * d <= s) by (nonlinear_arith)
                requires
                    x == s / d,
                    s >= 0,
                    d >= 1,
            ;
            assert(d <= 2048) by (nonlinear_arith)
                requires
                    x * d <= s,
                    x >= 0x20_0000_0000_0000,
                    s < 0x1_0000_0000_0000_0000,
                    d >= 1,
            ;
            assert((s / d) / 2 == s / (d * 2)) by (nonlinear_arith)
                requires
                    s >= 0,
                    d >= 1,
            ;
            assert(d * (2 * double_spacing((s / (d * 2)) as nat)) == (d * 2) * double_spacing(
                (s / (d * 2)) as nat,
            )) by (nonlinear_arith);
        }
        q = q * 2;
    }
    assert(double_spacing(size as nat / q as nat) == 1);
    assert(double_spacing(size as nat) == q) by (nonlinear_arith)
        requires
            double_spacing(size as nat) == q * double_spacing(size as nat / q as nat),
            double_spacing(size as nat / q as nat) == 1,
    ;
    let whole: u64 = size / q;
    let rest: u64 = size % q;
    let up = 2 * rest > q || (2 * rest == q && whole % 2 == 1);
    let top: u64 = if up {
        whole + 1
    } else {
        whole
    };
    assert(0 <= top as int * q as int <= 0x2_0000_0000_0000_0000) by (nonlinear_arith)
        requires
            0 <= top <= 0x20_0000_0000_0000,
            1 <= q <= 4096,
    ;
    let value: u128 = (top as u128) * (q as u128);
    assert(value == as_double(size as nat));
    let shown: u128 = value / (unit as u128);
    shown as u64
}

fn whole_units(size: u64) -> (shown: u64)
    ensures
        shown == units_shown(size),
{
    proof {
        if size < EXACT_LIMIT {
            lemma_small_sizes_exact(size as nat);
        }
    }
    if size < 0x400 {
        size
    } else if size < 0x10_0000 {
        size / 0x400
    } else if size < 0x4000_0000 {
        size / 0x10_0000
    } else if size < 0x100_0000_0000 {
        size / 0x4000_0000
    } else if size < EXACT_LIMIT {
        size / 0x100_0000_0000
    } else {
        rounded_units(size, 0x100_0000_0000)
    }
}

/// The size of the entry for its row: nothing for a directory; for a file
/// the number of whole units, right-aligned in three columns, and the unit.
pub fn get_size(entry: &Entry) -> (text: String)
    ensures
        text@ == size_text(entry@),
{
    if entry.is_dir {
        return String::new();
    }
    let size = entry.size;
    let mut out = align_right(decimal_digits(whole_units(size)), 3);
    let ghost number = out@;
    out.push(' ');
    if size < 0x400 {
        out.push(' ');
    } else if size < 0x10_0000 {
        out.push('K');
    } else if size < 0x4000_0000 {
        out.push('M');
    } else if size < 0x100_0000_0000 {
        out.push('G');
    } else {
        out.push('T');
    }
    out.push('B');
    assert(out@ =~= number + unit_label(size));
    string_of(&out)
}

/// `size` spaces.
pub fn get_spacer(size: usize) -> (text: String)
    ensures
        text@ == spaces(size as nat),
{
    let mut text = String::new();
    let mut i: usize = 0;
    while i < size
        invariant
            i <= size,
            text@ =~= spaces(i as nat),
        decreases size - i,
    {
        text.push(' ');
        i += 1;
    }
    text
}

/// A gap of two columns.
pub fn get_small_spacer(entry: &Entry) -> (text: String)
    ensures
        text@ == spaces(2),
{
    get_spacer(2)
}

/// A gap of four columns.
pub fn get_medium_spacer(entry: &Entry) -> (text: String)
    ensures
        text@ == spaces(4),
{
    get_spacer(4)
}

/// A gap of eight columns.
pub fn get_large_spacer(entry: &Entry) -> (text: String)
    ensures
        text@ == spaces(8),
{
    get_spacer(8)
}

/// The display modules that the browser brings along.
#[derive(Clone, Copy, Debug, PartialEq, Eq, Structural)]
pub enum Builtin {
    Icon,
    Name,
    CreationDate,
    Size,
    SmallSpacer,
    MediumSpacer,
    LargeSpacer,
}

/// The fragment that a built-in module gives for an entry.
pub open spec fn builtin_fragment(module: Builtin, entry: EntryView) -> Seq<char> {
    match module {
        Builtin::Icon => icon_of(entry.name),
        Builtin::Name => entry.name,
        Builtin::CreationDate => creation_text(entry),
        Builtin::Size => size_text(entry),
        Builtin::SmallSpacer => spaces(2),
        Builtin::MediumSpacer => spaces(4),
        Builtin::LargeSpacer => spaces(8),
    }
}

impl Builtin {
    /// The fragment of this module for `entry`.
    pub fn fragment(&self, entry: &Entry) -> (text: String)
        ensures
            text@ == builtin_fragment(*self, entry@),
    {
        match self {
            Builtin::Icon => get_icon(entry),
            Builtin::Name => get_name(entry),
            Builtin::CreationDate => creation_date_or_blank(entry),
            Builtin::Size => get_size(entry),
            Builtin::SmallSpacer => get_small_spacer(entry),
            Builtin::MediumSpacer => get_medium_spacer(entry),
            Builtin::LargeSpacer => get_large_spacer(entry),
        }
    }
}

impl DisplayModule for Builtin {
    open spec fn renders(&self, entry: EntryView, fragment: Seq<char>) -> bool {
        fragment == builtin_fragment(*self, entry)
    }

    fn render(&self, entry: &Entry) -> (fragment: String) {
        self.fragment(entry)
    }
}

/// The modules of a row when nothing else is configured: name, gap,
/// creation time, size, gap, with the glyph in front where the terminal
/// has the font for it.
pub open spec fn default_modules(use_nerd_fonts: bool) -> Seq<Builtin> {
    let plain = seq![
        Builtin::Name,
        Builtin::SmallSpacer,
        Builtin::CreationDate,
        Builtin::Size,
        Builtin::SmallSpacer,
    ];
    if use_nerd_fonts {
        seq![Builtin::Icon] + plain
    } else {
        plain
    }
}

/// The modules of a row when nothing else is configured.
pub fn default_display_modules(use_nerd_fonts: bool) -> (modules: Vec<Builtin>)
    ensures
        modules@ == default_modules(use_nerd_fonts),
{
    let mut modules: Vec<Builtin> = Vec::new();
    if use_nerd_fonts {
        modules.push(Builtin::Icon);
    }
    modules.push(Builtin::Name);
    modules.push(Builtin::SmallSpacer);
    modules.push(Builtin::CreationDate);
    modules.push(Builtin::Size);
    modules.push(Builtin::SmallSpacer);
    assert(modules@ =~= default_modules(use_nerd_fonts));
    modules
}

} // verus!

//! Character-level helpers over `Seq<char>` models: Unicode whitespace
//! trimming, quote doubling for single-quoted shell literals, path joining
//! and decimal rendering.

use vstd::prelude::*;

verus! {

/// The Unicode `White_Space` property, which `char::is_whitespace` and
/// `str::trim` go by.
pub open spec fn is_unicode_whitespace(c: char) -> bool {
    let u: u32 = c as u32;
    ||| 0x9 <= u <= 0xd
    ||| u == 0x20
    ||| u == 0x85
    ||| u == 0xa0
    ||| u == 0x1680
    ||| 0x2000 <= u <= 0x200a
    ||| u == 0x2028
    ||| u == 0x2029
    ||| u == 0x202f
    ||| u == 0x205f
    ||| u == 0x3000
}

/// `s` without its leading whitespace.
pub open spec fn trim_start(s: Seq<char>) -> Seq<char>
    decreases s.len(),
{
    if s.len() > 0 && is_unicode_whitespace(s[0]) {
        trim_start(s.drop_first())
    } else {
        s
    }
}

/// `s` without its trailing whitespace.
pub open spec fn trim_end(s: Seq<char>) -> Seq<char>
    decreases s.len(),
{
    if s.len() > 0 && is_unicode_whitespace(s.last()) {
        trim_end(s.drop_last())
    } else {
        s
    }
}

/// `s` without leading and trailing whitespace.
pub open spec fn trim(s: Seq<char>) -> Seq<char> {
    trim_end(trim_start(s))
}

/// Every character of `s` is whitespace.
pub open spec fn all_whitespace(s: Seq<char>) -> bool {
    forall|i: int| 0 <= i < s.len() ==> is_unicode_whitespace(#[trigger] s[i])
}

/// Whether `c` has the Unicode `White_Space` property.
pub fn is_whitespace(c: char) -> (r: bool)
    ensures
        r == is_unicode_whitespace(c),
{
    let u: u32 = c as u32;
    (0x9 <= u && u <= 0xd) || u == 0x20 || u == 0x85 || u == 0xa0 || u == 0x1680
        || (0x2000 <= u && u <= 0x200a) || u == 0x2028 || u == 0x2029 || u == 0x202f
        || u == 0x205f || u == 0x3000
}

/// The text with leading and trailing Unicode whitespace removed, as
/// `str::trim` gives it.
pub fn trim_whitespace(s: &str) -> (r: String)
    ensures
        r@ == trim(s@),
{
    let n: usize = s.unicode_len();
    let mut i: usize = 0;
    assert(s@.subrange(0, n as int) =~= s@);
    while i < n && is_whitespace(s.get_char(i))
        invariant
            i <= n,
            n == s@.len(),
            trim_start(s@) == trim_start(s@.subrange(i as int, n as int)),
        decreases n - i,
    {
        assert(s@.subrange(i as int, n as int).drop_first() =~= s@.subrange(i + 1, n as int));
        i = i + 1;
    }
    let mut j: usize = n;
    while j > i && is_whitespace(s.get_char(j - 1))
        invariant
            i <= j <= n,
            n == s@.len(),
            trim(s@) == trim_end(s@.subrange(i as int, j as int)),
        decreases j,
    {
        assert(s@.subrange(i as int, j as int).drop_last() =~= s@.subrange(i as int, j - 1));
        j = j - 1;
    }
    String::from_str(s.substring_char(i, j))
}

/// Leading whitespace is dropped whole by `trim_start`.
pub proof fn lemma_trim_start_skips_whitespace(w: Seq<char>, s: Seq<char>)
    requires
        all_whitespace(w),
    ensures
        trim_start(w + s) == trim_start(s),
    decreases w.len(),
{
    if w.len() == 0 {
        assert(w + s =~= s);
    } else {
        assert((w + s)[0] == w[0]);
        assert((w + s).drop_first() =~= w.drop_first() + s);
        lemma_trim_start_skips_whitespace(w.drop_first(), s);
    }
}

/// Trailing whitespace is dropped whole by `trim_end`.
pub proof fn lemma_trim_end_skips_whitespace(s: Seq<char>, w: Seq<char>)
    requires
        all_whitespace(w),
    ensures
        trim_end(s + w) == trim_end(s),
    decreases w.len(),
{
    if w.len() == 0 {
        assert(s + w =~= s);
    } else {
        assert((s + w).last() == w.last());
        assert((s + w).drop_last() =~= s + w.drop_last());
        lemma_trim_end_skips_whitespace(s, w.drop_last());
    }
}

/// Whitespace appended to `s` survives `trim_start` unless `s` is all
/// whitespace.
proof fn lemma_trim_start_keeps_suffix(s: Seq<char>, w: Seq<char>)
    requires
        all_whitespace(w),
    ensures
        trim_start(s + w) == (if trim_start(s).len() == 0 {
            Seq::<char>::empty()
        } else {
            trim_start(s) + w
        }),
    decreases s.len(),
{
    if s.len() == 0 {
        assert(s + w =~= w);
        lemma_trim_start_skips_whitespace(w, Seq::<char>::empty());
        assert(w + Seq::<char>::empty() =~= w);
    } else {
        assert((s + w)[0] == s[0]);
        if is_unicode_whitespace(s[0]) {
            assert((s + w).drop_first() =~= s.drop_first() + w);
            lemma_trim_start_keeps_suffix(s.drop_first(), w);
        }
    }
}

/// Trimming ignores whitespace added at either end.
pub proof fn lemma_trim_ignores_surrounding_whitespace(w1: Seq<char>, s: Seq<char>, w2: Seq<char>)
    requires
        all_whitespace(w1),
        all_whitespace(w2),
    ensures
        trim(w1 + s + w2) == trim(s),
{
    assert(w1 + s + w2 =~= w1 + (s + w2));
    lemma_trim_start_skips_whitespace(w1, s + w2);
    lemma_trim_start_keeps_suffix(s, w2);
    if trim_start(s).len() != 0 {
        lemma_trim_end_skips_whitespace(trim_start(s), w2);
    }
}

/// How one character is written inside a single-quoted shell literal:
/// a single quote is doubled, anything else stands as it is.
pub open spec fn quote_char(c: char) -> Seq<char> {
    if c == '\'' {
        seq!['\'', '\'']
    } else {
        seq![c]
    }
}

/// `s` with every single quote doubled, ready to stand between single
/// quotes in a PowerShell command.
pub open spec fn double_single_quotes(s: Seq<char>) -> Seq<char>
    decreases s.len(),
{
    if s.len() == 0 {
        Seq::<char>::empty()
    } else {
        double_single_quotes(s.drop_last()) + quote_char(s.last())
    }
}

/// What a reader of a single-quoted literal takes from the text between
/// the quotes: a doubled quote stands for one quote; `None` where a lone
/// quote would end the literal early.
pub open spec fn read_single_quoted(s: Seq<char>) -> Option<Seq<char>>
    decreases s.len(),
{
    if s.len() == 0 {
        Some(Seq::<char>::empty())
    } else if s[0] == '\'' {
        if s.len() >= 2 && s[1] == '\'' {
            match read_single_quoted(s.skip(2)) {
                Some(r) => Some(seq!['\''] + r),
                None => None,
            }
        } else {
            None
        }
    } else {
        match read_single_quoted(s.skip(1)) {
            Some(r) => Some(seq![s[0]] + r),
            None => None,
        }
    }
}

/// Doubling quotes distributes over concatenation.
pub proof fn lemma_double_single_quotes_concat(a: Seq<char>, b: Seq<char>)
    ensures
        double_single_quotes(a + b) == double_single_quotes(a) + double_single_quotes(b),
    decreases b.len(),
{
    if b.len() == 0 {
        assert(a + b =~= a);
        assert(double_single_quotes(a) + double_single_quotes(b) =~= double_single_quotes(a));
    } else {
        assert((a + b).drop_last() =~= a + b.drop_last());
        assert((a + b).last() == b.last());
        lemma_double_single_quotes_concat(a, b.drop_last());
        assert(double_single_quotes(a) + double_single_quotes(b.drop_last()) + quote_char(b.last())
            =~= double_single_quotes(a) + (double_single_quotes(b.drop_last()) + quote_char(b.last())));
    }
}

/// A text whose quotes were doubled reads back, between single quotes,
/// as the text itself.
pub proof fn lemma_double_single_quotes_reads_back(s: Seq<char>)
    ensures
        read_single_quoted(double_single_quotes(s)) == Some(s),
    decreases s.len(),
{
    if s.len() == 0 {
    } else {
        let head = seq![s[0]];
        let rest = s.drop_first();
        assert(s =~= head + rest);
        lemma_double_single_quotes_concat(head, rest);
        assert(head.drop_last() =~= Seq::<char>::empty());
        assert(double_single_quotes(head.drop_last()) == Seq::<char>::empty());
        assert(head.last() == s[0]);
        assert(double_single_quotes(head) =~= quote_char(s[0]));
        let e = double_single_quotes(s);
        lemma_double_single_quotes_reads_back(rest);
        if s[0] == '\'' {
            assert(e.skip(2) =~= double_single_quotes(rest));
            assert(seq!['\''] + rest =~= s);
        } else {
            assert(e.skip(1) =~= double_single_quotes(rest));
            assert(seq![s[0]] + rest =~= s);
        }
    }
}

/// `s` with every single quote doubled, as `str::replace('\'', "''")`
/// gives it.
pub fn escape_single_quotes(s: &str) -> (r: String)
    ensures
        r@ == double_single_quotes(s@),
{
    let n: usize = s.unicode_len();
    let mut r = String::new();
    let mut i: usize = 0;
    while i < n
        invariant
            i <= n,
            n == s@.len(),
            r@ == double_single_quotes(s@.take(i as int)),
        decreases n - i,
    {
        let c = s.get_char(i);
        proof {
            reveal_strlit("''");
            assert(s@.take(i + 1).drop_last() =~= s@.take(i as int));
            assert(s@.take(i + 1).last() == c);
        }
        if c == '\'' {
            r.append("''");
        } else {
            r.append(s.substring_char(i, i + 1));
            assert(s@.subrange(i as int, i + 1) =~= seq![c]);
        }
        i = i + 1;
    }
    assert(s@.take(n as int) =~= s@);
    r
}

/// The separators that platforms use between path components: `\` on
/// Windows, `/` elsewhere.
pub open spec fn is_main_separator(separator: char) -> bool {
    separator == '/' || separator == '\\'
}

/// Whether `c` separates path components where `separator` is the
/// platform's main separator: `/` always does, and so does the main one.
pub open spec fn is_path_separator(c: char, separator: char) -> bool {
    c == '/' || c == separator
}

/// An ASCII letter.
pub open spec fn is_ascii_letter(c: char) -> bool {
    ('a' <= c <= 'z') || ('A' <= c <= 'Z')
}

/// A Windows base that is nothing but a drive, such as `C:`: joining under
/// it adds no separator (`C:` and `x` make `C:x`).
pub open spec fn is_bare_drive(base: Seq<char>, separator: char) -> bool {
    separator == '\\' && base.len() == 2 && is_ascii_letter(base[0]) && base[1] == ':'
}

/// A single component name on any platform: no `/` or `\`, no `:`
/// (which could start a Windows drive prefix) and no `?` (which could
/// start a Windows verbatim prefix).
pub open spec fn is_plain_name(name: Seq<char>) -> bool {
    forall|i: int|
        0 <= i < name.len() ==> #[trigger] name[i] != '/' && name[i] != '\\' && name[i] != ':' && name[i] != '?'
}

/// A Windows base that starts like a verbatim path (`\\?`): std rebuilds
/// such a path from its components when it joins under it.
pub open spec fn starts_verbatim(base: Seq<char>, separator: char) -> bool {
    separator == '\\' && base.len() >= 3 && base[0] == '\\' && base[1] == '\\' && base[2] == '?'
}

/// Joining a plain name under a base that does not start like a verbatim
/// path never makes one that does, and one that does stays so.
pub proof fn lemma_join_keeps_verbatim_start(base: Seq<char>, name: Seq<char>, separator: char)
    requires
        is_main_separator(separator),
        is_plain_name(name),
    ensures
        starts_verbatim(join_path_spec(base, name, separator), separator) == starts_verbatim(base, separator),
{
    let r = join_path_spec(base, name, separator);
    if base.len() >= 3 {
        assert(r[0] == base[0] && r[1] == base[1] && r[2] == base[2]);
    } else if r.len() >= 3 && separator == '\\' {
        assert(r[2] != '?' || r[1] != '\\' || r[0] != '\\') by {
            if r[0] == '\\' && r[1] == '\\' && r[2] == '?' {
                if base.len() == 0 {
                    assert(r == name);
                    assert(name[2] == '?');
                } else if base.len() == 1 {
                    if is_path_separator(base.last(), separator) || is_bare_drive(base, separator) {
                        assert(r[1] == name[0]);
                    } else {
                        assert(r[2] == name[0]);
                    }
                } else {
                    if is_path_separator(base.last(), separator) || is_bare_drive(base, separator) {
                        assert(r[2] == name[0]);
                    } else {
                        assert(r[2] == separator);
                    }
                }
            }
        }
    }
}

/// `std::path::PathBuf::join` of `base` and `name`, as text.
///
/// The contract claims what holds on Windows and Unix for a plain name:
/// the result keeps the base's first three characters (a prefix is kept,
/// and nothing is put before the base). How std normalises a Windows
/// verbatim base is left unsaid.
#[verifier::external_body]
fn std_join(base: &str, name: &str) -> (r: String)
    requires
        is_plain_name(name@),
    ensures
        base@.len() >= 3 ==> r@.len() >= 3 && r@.subrange(0, 3) == base@.subrange(0, 3),
{
    std::path::Path::new(base).join(name).to_string_lossy().into_owned()
}

/// `name` placed under the directory `base`, as `PathBuf::join` places a
/// plain name under a base that is not a Windows verbatim path: no separator is added after an empty base, after one that
/// already ends in a separator, or after a bare Windows drive; the
/// platform's main separator otherwise.
pub open spec fn join_path_spec(base: Seq<char>, name: Seq<char>, separator: char) -> Seq<char> {
    if base.len() == 0 || is_path_separator(base.last(), separator) || is_bare_drive(base, separator) {
        base + name
    } else {
        base + seq![separator] + name
    }
}

fn is_letter(c: char) -> (r: bool)
    ensures
        r == is_ascii_letter(c),
{
    ('a' <= c && c <= 'z') || ('A' <= c && c <= 'Z')
}

/// `name` placed under the directory `base`, with `separator` the
/// platform's main separator (`std::path::MAIN_SEPARATOR`). A Windows
/// verbatim base is handed to std, which normalises it.
pub fn join_path(base: &str, name: &str, separator: char) -> (r: String)
    requires
        is_main_separator(separator),
        is_plain_name(name@),
    ensures
        !starts_verbatim(base@, separator) ==> r@ == join_path_spec(base@, name@, separator),
        starts_verbatim(base@, separator) ==> starts_verbatim(r@, separator),
{
    if separator == '\\' && base.unicode_len() >= 3 && base.get_char(0) == '\\' && base.get_char(1) == '\\'
        && base.get_char(2) == '?' {
        let r = std_join(base, name);
        assert(r@[0] == r@.subrange(0, 3)[0] && r@[1] == r@.subrange(0, 3)[1] && r@[2] == r@.subrange(0, 3)[2]);
        assert(base@[0] == base@.subrange(0, 3)[0] && base@[1] == base@.subrange(0, 3)[1] && base@[2]
            == base@.subrange(0, 3)[2]);
        return r;
    }
    let n: usize = base.unicode_len();
    let mut r = String::from_str(base);
    let needs_separator = if n == 0 {
        false
    } else {
        let last = base.get_char(n - 1);
        let bare_drive = separator == '\\' && n == 2 && is_letter(base.get_char(0)) && base.get_char(1) == ':';
        !(last == '/' || last == separator) && !bare_drive
    };
    if needs_separator {
        proof {
            reveal_strlit("\\");
            reveal_strlit("/");
        }
        if separator == '\\' {
            r.append("\\");
        } else {
            r.append("/");
        }
    }
    r.append(name);
    proof {
        if n == 0 {
            assert(r@ =~= base@ + name@);
        }
    }
    r
}

/// The decimal digit `d` as a character.
pub open spec fn digit_char(d: nat) -> char {
    (48 + d) as char
}

/// The decimal rendering of `n`, without sign or leading zeros.
pub open spec fn decimal(n: nat) -> Seq<char>
    decreases n,
{
    if n < 10 {
        seq![digit_char(n)]
    } else {
        decimal(n / 10) + seq![digit_char(n % 10)]
    }
}

fn digit_str(d: u32) -> (r: &'static str)
    requires
        d < 10,
    ensures
        r@ == seq![digit_char(d as nat)],
{
    proof {
        reveal_strlit("0");
        reveal_strlit("1");
        reveal_strlit("2");
        reveal_strlit("3");
        reveal_strlit("4");
        reveal_strlit("5");
        reveal_strlit("6");
        reveal_strlit("7");
        reveal_strlit("8");
        reveal_strlit("9");
    }
    match d {
        0 => "0",
        1 => "1",
        2 => "2",
        3 => "3",
        4 => "4",
        5 => "5",
        6 => "6",
        7 => "7",
        8 => "8",
        _ => "9",
    }
}

/// The decimal rendering of `n`, as `u32::to_string` gives it.
pub fn decimal_string(n: u32) -> (r: String)
    ensures
        r@ == decimal(n as nat),
    decreases n,
{
    if n < 10 {
        String::from_str(digit_str(n))
    } else {
        let mut r = decimal_string(n / 10);
        r.append(digit_str(n % 10));
        r
    }
}

/// Every character of a decimal rendering is a digit.
pub proof fn lemma_decimal_digits(n: nat)
    ensures
        forall|i: int| 0 <= i < decimal(n).len() ==> '0' <= #[trigger] decimal(n)[i] <= '9',
    decreases n,
{
    if n >= 10 {
        lemma_decimal_digits(n / 10);
        let d = decimal(n);
        assert forall|i: int| 0 <= i < d.len() implies '0' <= #[trigger] d[i] <= '9' by {
            if i < decimal(n / 10).len() {
                assert(d[i] == decimal(n / 10)[i]);
            }
        }
    }
}


/// The number that a string of decimal digits denotes, read in base ten.
pub open spec fn digits_value(s: Seq<char>) -> int
    decreases s.len(),
{
    if s.len() == 0 {
        0
    } else {
        digits_value(s.drop_last()) * 10 + (s.last() as int - 48)
    }
}

/// The decimal rendering of `n` denotes `n`: it is a non-empty string of
/// digits, with no leading zero unless `n` is zero, whose value read in
/// base ten is `n`.
pub proof fn law_decimal_denotes(n: nat)
    ensures
        decimal(n).len() > 0,
        forall|i: int| 0 <= i < decimal(n).len() ==> '0' <= #[trigger] decimal(n)[i] <= '9',
        n > 0 ==> decimal(n)[0] != '0',
        digits_value(decimal(n)) == n,
    decreases n,
{
    lemma_decimal_digits(n);
    if n >= 10 {
        law_decimal_denotes(n / 10);
        let d = decimal(n);
        assert(d.drop_last() =~= decimal(n / 10));
        assert(d[0] == decimal(n / 10)[0]);
        assert((n / 10) * 10 + n % 10 == n) by (nonlinear_arith);
        assert(d.last() == digit_char(n % 10));
        assert(digit_char(n % 10) as int == 48 + n % 10);
        assert(digits_value(d) == digits_value(d.drop_last()) * 10 + (d.last() as int - 48));
        assert(digits_value(d) == (n / 10) * 10 + n % 10);
    } else {
        let d = decimal(n);
        assert(d.last() == digit_char(n));
        assert(digit_char(n) as int == 48 + n);
        assert(d.drop_last().len() == 0);
        assert(digits_value(d.drop_last()) == 0);
        assert(digits_value(d) == digits_value(d.drop_last()) * 10 + (d.last() as int - 48));
    }
}

} // verus!

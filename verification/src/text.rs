//! Text helpers shared by the plugins: decimal rendering of integers,
//! Unicode whitespace, trimming, and reading a string into its characters.

use vstd::prelude::*;
use vstd::string::*;
use vstd::std_specs::iter::IteratorSpec;

verus! {

/// The ASCII digit for `d` (0..=9).
pub open spec fn digit_char(d: nat) -> char {
    ((d + 48) as u32) as char
}

/// Decimal digits of a natural number, most significant first, no leading zeros.
pub open spec fn decimal_digits(n: nat) -> Seq<char>
    decreases n,
{
    if n < 10 {
        seq![digit_char(n)]
    } else {
        decimal_digits(n / 10).push(digit_char(n % 10))
    }
}

/// The decimal rendering of an integer, with a leading `-` when negative:
/// what `Display` prints for Rust's integer types.
pub open spec fn decimal(n: int) -> Seq<char> {
    if n < 0 {
        seq!['-'] + decimal_digits((-n) as nat)
    } else {
        decimal_digits(n as nat)
    }
}

fn digit_str(d: u8) -> (r: &'static str)
    requires
        d < 10,
    ensures
        r@ == seq![digit_char(d as nat)],
{
    match d {
        0 => {
            proof {
                reveal_strlit("0");
            }
            "0"
        },
        1 => {
            proof {
                reveal_strlit("1");
            }
            "1"
        },
        2 => {
            proof {
                reveal_strlit("2");
            }
            "2"
        },
        3 => {
            proof {
                reveal_strlit("3");
            }
            "3"
        },
        4 => {
            proof {
                reveal_strlit("4");
            }
            "4"
        },
        5 => {
            proof {
                reveal_strlit("5");
            }
            "5"
        },
        6 => {
            proof {
                reveal_strlit("6");
            }
            "6"
        },
        7 => {
            proof {
                reveal_strlit("7");
            }
            "7"
        },
        8 => {
            proof {
                reveal_strlit("8");
            }
            "8"
        },
        _ => {
            proof {
                reveal_strlit("9");
            }
            "9"
        },
    }
}

pub open spec fn digits_view(v: Seq<u8>) -> Seq<char> {
    v.reverse().map_values(|d: u8| digit_char(d as nat))
}

/// Appends the decimal digits of `m` to `s`.
fn append_decimal_digits(s: &mut String, m: u64)
    ensures
        final(s)@ == old(s)@ + decimal_digits(m as nat),
{
    // Digits, least significant first.
    let mut v: Vec<u8> = Vec::new();
    let mut k: u64 = m;
    let ghost mut tail: Seq<char> = seq![];
    while k >= 10
        invariant
            decimal_digits(m as nat) == decimal_digits(k as nat) + digits_view(v@),
            forall|i: int| 0 <= i < v@.len() ==> v@[i] < 10,
        decreases k,
    {
        let d: u8 = (k % 10) as u8;
        assert(decimal_digits(k as nat) == decimal_digits((k / 10) as nat).push(
            digit_char((k % 10) as nat),
        ));
        let ghost old_v = v@;
        v.push(d);
        assert(v@.reverse() =~= seq![d] + old_v.reverse());
        assert(digits_view(v@) =~= seq![digit_char(d as nat)] + digits_view(old_v));
        k = k / 10;
    }
    let ghost old_v = v@;
    v.push(k as u8);
    assert(v@.reverse() =~= seq![k as u8] + old_v.reverse());
    assert(digits_view(v@) =~= decimal_digits(m as nat));
    let n = v.len();
    let mut j: usize = n;
    let ghost start = s@;
    while j > 0
        invariant
            n == v@.len(),
            j <= n,
            forall|i: int| 0 <= i < v@.len() ==> v@[i] < 10,
            s@ =~= start + digits_view(v@).take((n - j) as int),
        decreases j,
    {
        j = j - 1;
        s.append(digit_str(v[j]));
        assert(digits_view(v@).take((n - j) as int) =~= digits_view(v@).take(
            (n - j - 1) as int,
        ).push(digit_char(v@[j as int] as nat)));
    }
    assert(digits_view(v@).take(n as int) =~= digits_view(v@));
}

/// Renders a signed integer in decimal, as `i64::to_string` does.
pub fn decimal_string(n: i64) -> (r: String)
    ensures
        r@ == decimal(n as int),
{
    let mut s = String::new();
    if n < 0 {
        proof {
            reveal_strlit("-");
        }
        s.append("-");
        let m: u64 = (-(n as i128)) as u64;
        append_decimal_digits(&mut s, m);
    } else {
        append_decimal_digits(&mut s, n as u64);
    }
    s
}

/// Renders an unsigned integer in decimal, as `u64::to_string` does.
pub fn decimal_string_unsigned(n: u64) -> (r: String)
    ensures
        r@ == decimal(n as int),
{
    let mut s = String::new();
    append_decimal_digits(&mut s, n);
    s
}

/// Unicode `White_Space`, the property that `char::is_whitespace` and
/// `str::trim` go by.
pub open spec fn is_space(c: char) -> bool {
    let u = c as u32;
    ||| 0x09 <= u <= 0x0D
    ||| u == 0x20
    ||| u == 0x85
    ||| u == 0xA0
    ||| u == 0x1680
    ||| 0x2000 <= u <= 0x200A
    ||| u == 0x2028
    ||| u == 0x2029
    ||| u == 0x202F
    ||| u == 0x205F
    ||| u == 0x3000
}

/// Whether `c` is Unicode white space.
pub fn is_space_char(c: char) -> (r: bool)
    ensures
        r == is_space(c),
{
    let u: u32 = c as u32;
    (0x09 <= u && u <= 0x0D) || u == 0x20 || u == 0x85 || u == 0xA0 || u == 0x1680 || (0x2000
        <= u && u <= 0x200A) || u == 0x2028 || u == 0x2029 || u == 0x202F || u == 0x205F || u
        == 0x3000
}

/// The characters of a string, in order.
pub fn chars_of(s: &str) -> (r: Vec<char>)
    ensures
        r@ == s@,
{
    broadcast use vstd::string::group_string_axioms;

    let mut out: Vec<char> = Vec::new();
    let mut it = s.chars();
    assert(it.remaining() == s@);
    loop
        invariant
            out@ + it.remaining() == s@,
            it.obeys_prophetic_iter_laws(),
            it.decrease() is Some,
        decreases it.decrease()->0,
    {
        let ghost before = it.remaining();
        match it.next() {
            Some(c) => {
                assert(before.len() > 0);
                assert(before[0] == c);
                out.push(c);
                assert(out@ + it.remaining() =~= s@);
            },
            None => {
                assert(before.len() == 0);
                assert(out@ =~= s@);
                return out;
            },
        }
    }
}

/// First index at or after which no white space leads.
pub open spec fn trimmed_start(s: Seq<char>) -> int
    decreases s.len(),
{
    if s.len() > 0 && is_space(s[0]) {
        1 + trimmed_start(s.drop_first())
    } else {
        0
    }
}

/// Index after the last character that is not white space.
pub open spec fn trimmed_end(s: Seq<char>) -> int
    decreases s.len(),
{
    if s.len() > 0 && is_space(s.last()) {
        trimmed_end(s.drop_last())
    } else {
        s.len() as int
    }
}

/// `s` without leading and trailing white space, as `str::trim` gives it.
pub open spec fn trim(s: Seq<char>) -> Seq<char> {
    let a = trimmed_start(s);
    let b = trimmed_end(s);
    if a < b { s.subrange(a, b) } else { seq![] }
}

proof fn lemma_trimmed_start(s: Seq<char>)
    ensures
        0 <= trimmed_start(s) <= s.len(),
        forall|k: int| 0 <= k < trimmed_start(s) ==> is_space(#[trigger] s[k]),
        trimmed_start(s) < s.len() ==> !is_space(s[trimmed_start(s)]),
    decreases s.len(),
{
    if s.len() > 0 && is_space(s[0]) {
        lemma_trimmed_start(s.drop_first());
        assert forall|k: int| 0 <= k < trimmed_start(s) implies is_space(#[trigger] s[k]) by {
            if k > 0 {
                assert(s[k] == s.drop_first()[k - 1]);
            }
        }
    }
}

proof fn lemma_trimmed_end(s: Seq<char>)
    ensures
        0 <= trimmed_end(s) <= s.len(),
        forall|k: int| trimmed_end(s) <= k < s.len() ==> is_space(#[trigger] s[k]),
        trimmed_end(s) > 0 ==> !is_space(s[trimmed_end(s) - 1]),
    decreases s.len(),
{
    if s.len() > 0 && is_space(s.last()) {
        lemma_trimmed_end(s.drop_last());
        assert forall|k: int| trimmed_end(s) <= k < s.len() implies is_space(#[trigger] s[k]) by {
            if k < s.len() - 1 {
                assert(s[k] == s.drop_last()[k]);
            }
        }
    }
}

proof fn lemma_trimmed_start_unique(s: Seq<char>, a: int)
    requires
        0 <= a <= s.len(),
        forall|k: int| 0 <= k < a ==> is_space(#[trigger] s[k]),
        a < s.len() ==> !is_space(s[a]),
    ensures
        trimmed_start(s) == a,
    decreases s.len(),
{
    if s.len() > 0 && is_space(s[0]) {
        assert(a > 0);
        assert forall|k: int| 0 <= k < a - 1 implies is_space(#[trigger] s.drop_first()[k]) by {
            assert(is_space(s[k + 1]));
        }
        lemma_trimmed_start_unique(s.drop_first(), a - 1);
    } else if a > 0 {
        assert(is_space(s[0]));
    }
}

proof fn lemma_trimmed_end_unique(s: Seq<char>, b: int)
    requires
        0 <= b <= s.len(),
        forall|k: int| b <= k < s.len() ==> is_space(#[trigger] s[k]),
        b > 0 ==> !is_space(s[b - 1]),
    ensures
        trimmed_end(s) == b,
    decreases s.len(),
{
    if s.len() > 0 && is_space(s.last()) {
        assert(b < s.len());
        assert forall|k: int| b <= k < s.len() - 1 implies is_space(#[trigger] s.drop_last()[k]) by {
            assert(is_space(s[k]));
        }
        lemma_trimmed_end_unique(s.drop_last(), b);
    } else if b < s.len() {
        assert(is_space(s[s.len() - 1]));
    }
}

/// `s` without leading and trailing white space.
pub fn trim_str(s: &str) -> (r: String)
    ensures
        r@ == trim(s@),
{
    let cs = chars_of(s);
    let n = cs.len();
    let mut a: usize = 0;
    while a < n && is_space_char(cs[a])
        invariant
            n == cs@.len(),
            cs@ == s@,
            a <= n,
            forall|k: int| 0 <= k < a ==> is_space(#[trigger] cs@[k]),
        decreases n - a,
    {
        a = a + 1;
    }
    let mut b: usize = n;
    while b > a && is_space_char(cs[b - 1])
        invariant
            n == cs@.len(),
            a <= b <= n,
            forall|k: int| b <= k < n ==> is_space(#[trigger] cs@[k]),
        decreases b,
    {
        b = b - 1;
    }
    proof {
        lemma_trimmed_start_unique(s@, a as int);
        if a < b {
            lemma_trimmed_end_unique(s@, b as int);
        } else {
            lemma_trimmed_end(s@);
            if trimmed_end(s@) > a {
                assert(!is_space(s@[trimmed_end(s@) - 1]));
                assert(is_space(s@[trimmed_end(s@) - 1]));
            }
        }
    }
    if a < b {
        s.substring_char(a, b).to_owned()
    } else {
        String::new()
    }
}

/// The white-space separated words of `s`, in order: what
/// `str::split_whitespace` yields.
pub open spec fn words(s: Seq<char>) -> Seq<Seq<char>>
    decreases s.len(),
{
    if s.len() == 0 {
        seq![]
    } else {
        let w = words(s.drop_last());
        let c = s.last();
        if is_space(c) {
            w
        } else if s.len() >= 2 && !is_space(s[s.len() - 2]) {
            w.drop_last().push(w.last().push(c))
        } else {
            w.push(seq![c])
        }
    }
}

/// The pieces of `s` between line feeds (one more piece than line feeds).
pub open spec fn line_pieces(s: Seq<char>) -> Seq<Seq<char>>
    decreases s.len(),
{
    if s.len() == 0 {
        seq![seq![]]
    } else {
        let l = line_pieces(s.drop_last());
        let c = s.last();
        if c == '\n' {
            l.push(seq![])
        } else {
            l.drop_last().push(l.last().push(c))
        }
    }
}

pub open spec fn ranges_view(s: Seq<char>, r: Seq<(usize, usize)>) -> Seq<Seq<char>> {
    r.map_values(|p: (usize, usize)| s.subrange(p.0 as int, p.1 as int))
}

/// Start and end indices, into `cs`, of the words of `cs[a..b]`.
pub fn word_ranges(cs: &Vec<char>, a: usize, b: usize) -> (r: Vec<(usize, usize)>)
    requires
        a <= b <= cs@.len(),
    ensures
        ranges_view(cs@, r@) == words(cs@.subrange(a as int, b as int)),
        forall|k: int| 0 <= k < r@.len() ==> a <= (#[trigger] r@[k]).0 <= r@[k].1 <= b,
{
    let mut closed: Vec<(usize, usize)> = Vec::new();
    let mut open: Option<usize> = None;
    let mut i: usize = a;
    assert(cs@.subrange(a as int, a as int) =~= seq![]);
    while i < b
        invariant
            a <= i <= b <= cs@.len(),
            forall|k: int| 0 <= k < closed@.len() ==> a <= (#[trigger] closed@[k]).0 <= closed@[k].1 <= i,
            match open {
                Some(st) => a <= st < i && !is_space(cs@[i - 1]) && words(
                    cs@.subrange(a as int, i as int),
                ) == ranges_view(cs@, closed@).push(cs@.subrange(st as int, i as int)),
                None => (i == a || is_space(cs@[i - 1])) && words(cs@.subrange(a as int, i as int))
                    == ranges_view(cs@, closed@),
            },
        decreases b - i,
    {
        let c = cs[i];
        let ghost pre = cs@.subrange(a as int, i as int);
        let ghost post = cs@.subrange(a as int, i + 1);
        assert(post.drop_last() =~= pre);
        assert(post.last() == c);
        if is_space_char(c) {
            match open {
                Some(st) => {
                    let ghost old_closed = closed@;
                    closed.push((st, i));
                    assert(ranges_view(cs@, closed@) =~= ranges_view(cs@, old_closed).push(
                        cs@.subrange(st as int, i as int),
                    ));
                },
                None => {},
            }
            open = None;
        } else {
            match open {
                Some(st) => {
                    assert(post.len() >= 2);
                    assert(post[post.len() - 2] == cs@[i - 1]);
                    assert(cs@.subrange(st as int, i + 1) =~= cs@.subrange(st as int, i as int).push(
                        c,
                    ));
                    assert(words(post) =~= ranges_view(cs@, closed@).push(
                        cs@.subrange(st as int, i + 1),
                    ));
                },
                None => {
                    if i > a {
                        assert(post[post.len() - 2] == cs@[i - 1]);
                    }
                    assert(cs@.subrange(i as int, i + 1) =~= seq![c]);
                    open = Some(i);
                },
            }
        }
        i = i + 1;
    }
    match open {
        Some(st) => {
            let ghost old_closed = closed@;
            closed.push((st, b));
            assert(ranges_view(cs@, closed@) =~= ranges_view(cs@, old_closed).push(
                cs@.subrange(st as int, b as int),
            ));
        },
        None => {},
    }
    closed
}

/// Start and end indices, into `cs`, of its pieces between line feeds.
pub fn line_ranges(cs: &Vec<char>) -> (r: Vec<(usize, usize)>)
    ensures
        ranges_view(cs@, r@) == line_pieces(cs@),
        forall|k: int| 0 <= k < r@.len() ==> (#[trigger] r@[k]).0 <= r@[k].1 <= cs@.len(),
{
    let n = cs.len();
    let mut closed: Vec<(usize, usize)> = Vec::new();
    let mut start: usize = 0;
    let mut i: usize = 0;
    assert(cs@.subrange(0, 0) =~= seq![]);
    assert(line_pieces(cs@.subrange(0, 0)) =~= seq![seq![]]);
    while i < n
        invariant
            n == cs@.len(),
            start <= i <= n,
            forall|k: int| 0 <= k < closed@.len() ==> (#[trigger] closed@[k]).0 <= closed@[k].1 <= i,
            line_pieces(cs@.subrange(0, i as int)) == ranges_view(cs@, closed@).push(
                cs@.subrange(start as int, i as int),
            ),
        decreases n - i,
    {
        let ghost pre = cs@.subrange(0, i as int);
        let ghost post = cs@.subrange(0, i + 1);
        assert(post.drop_last() =~= pre);
        if cs[i] == '\n' {
            let ghost old_closed = closed@;
            closed.push((start, i));
            assert(ranges_view(cs@, closed@) =~= ranges_view(cs@, old_closed).push(
                cs@.subrange(start as int, i as int),
            ));
            start = i + 1;
            assert(cs@.subrange(start as int, i + 1) =~= seq![]);
        } else {
            assert(cs@.subrange(start as int, i + 1) =~= cs@.subrange(start as int, i as int).push(
                cs@[i as int],
            ));
        }
        i = i + 1;
    }
    assert(cs@.subrange(0, n as int) =~= cs@);
    let ghost old_closed = closed@;
    closed.push((start, n));
    assert(ranges_view(cs@, closed@) =~= ranges_view(cs@, old_closed).push(
        cs@.subrange(start as int, n as int),
    ));
    closed
}

/// Whether `cs[x..y]` spells `t`.
pub fn range_equals(cs: &Vec<char>, x: usize, y: usize, t: &Vec<char>) -> (r: bool)
    requires
        x <= y <= cs@.len(),
    ensures
        r == (cs@.subrange(x as int, y as int) == t@),
{
    if y - x != t.len() {
        return false;
    }
    let mut k: usize = 0;
    while k < t.len()
        invariant
            x <= y <= cs@.len(),
            y - x == t@.len(),
            k <= t@.len(),
            forall|j: int| 0 <= j < k ==> cs@[x + j] == t@[j],
        decreases t@.len() - k,
    {
        if cs[x + k] != t[k] {
            assert(cs@.subrange(x as int, y as int)[k as int] != t@[k as int]);
            return false;
        }
        k = k + 1;
    }
    assert(cs@.subrange(x as int, y as int) =~= t@);
    true
}

/// `base` joined with `part` as `Path::join` does on Unix: an absolute
/// `part` replaces `base`, and a separator goes between them unless `base`
/// is empty or already ends in one.
pub open spec fn path_join(base: Seq<char>, part: Seq<char>) -> Seq<char> {
    if part.len() > 0 && part[0] == '/' {
        part
    } else if base.len() == 0 || base.last() == '/' {
        base + part
    } else {
        base + seq!['/'] + part
    }
}

/// Joins two Unix paths.
pub fn join_path(base: &str, part: &str) -> (r: String)
    ensures
        r@ == path_join(base@, part@),
{
    if !part.is_empty() && part.get_char(0) == '/' {
        return part.to_owned();
    }
    let mut out = base.to_owned();
    if !base.is_empty() {
        let n = base.unicode_len();
        if base.get_char(n - 1) != '/' {
            proof {
                reveal_strlit("/");
            }
            out.append("/");
        }
    }
    out.append(part);
    out
}

proof fn lemma_digit_char(d: nat, e: nat)
    requires
        d < 10,
        e < 10,
    ensures
        (digit_char(d) == digit_char(e)) == (d == e),
        digit_char(d) != '-',
{
    assert(('-' as u32) == 45);
    assert((digit_char(d) as u32) == d + 48);
    assert((digit_char(e) as u32) == e + 48);
}

proof fn lemma_decimal_digits_shape(n: nat)
    ensures
        decimal_digits(n).len() >= 1,
        (decimal_digits(n).len() == 1) == (n < 10),
        decimal_digits(n)[0] != '-',
    decreases n,
{
    if n < 10 {
        lemma_digit_char(n, n);
    } else {
        lemma_decimal_digits_shape(n / 10);
    }
}

proof fn lemma_decimal_digits_injective(a: nat, b: nat)
    requires
        decimal_digits(a) == decimal_digits(b),
    ensures
        a == b,
    decreases a,
{
    lemma_decimal_digits_shape(a);
    lemma_decimal_digits_shape(b);
    if a < 10 {
        lemma_digit_char(a, b);
    } else {
        let da = decimal_digits(a);
        let db = decimal_digits(b);
        assert(da.last() == digit_char(a % 10));
        assert(db.last() == digit_char(b % 10));
        lemma_digit_char(a % 10, b % 10);
        assert(da.drop_last() =~= decimal_digits(a / 10));
        assert(db.drop_last() =~= decimal_digits(b / 10));
        lemma_decimal_digits_injective(a / 10, b / 10);
    }
}

/// Different integers render differently, so a decimal key names exactly
/// one integer.
pub proof fn lemma_decimal_injective(a: int, b: int)
    requires
        decimal(a) == decimal(b),
    ensures
        a == b,
{
    lemma_decimal_digits_shape((-a) as nat);
    lemma_decimal_digits_shape((-b) as nat);
    lemma_decimal_digits_shape(a as nat);
    lemma_decimal_digits_shape(b as nat);
    if a < 0 && b < 0 {
        assert(decimal(a).drop_first() =~= decimal_digits((-a) as nat));
        assert(decimal(b).drop_first() =~= decimal_digits((-b) as nat));
        lemma_decimal_digits_injective((-a) as nat, (-b) as nat);
    } else if a >= 0 && b >= 0 {
        lemma_decimal_digits_injective(a as nat, b as nat);
    } else if a < 0 {
        assert(decimal(a)[0] == '-');
        assert(decimal(b)[0] != '-');
    } else {
        assert(decimal(b)[0] == '-');
        assert(decimal(a)[0] != '-');
    }
}

} // verus!

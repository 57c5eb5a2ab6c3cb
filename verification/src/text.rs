//! Character-level text helpers: decimal rendering, trimming, joining and
//! splitting, each with a specification over `Seq<char>`, and path joining
//! through std.
use vstd::prelude::*;

verus! {

// ───────────────────────── specifications ─────────────────────────

/// The ASCII character of a decimal digit.
pub open spec fn digit_char(d: nat) -> char {
    if d == 0 {
        '0'
    } else if d == 1 {
        '1'
    } else if d == 2 {
        '2'
    } else if d == 3 {
        '3'
    } else if d == 4 {
        '4'
    } else if d == 5 {
        '5'
    } else if d == 6 {
        '6'
    } else if d == 7 {
        '7'
    } else if d == 8 {
        '8'
    } else {
        '9'
    }
}

/// Decimal rendering of a natural number, without leading zeros.
pub open spec fn dec(n: nat) -> Seq<char>
    decreases n,
{
    if n < 10 {
        seq![digit_char(n)]
    } else {
        dec(n / 10).push(digit_char(n % 10))
    }
}

/// Decimal rendering of an integer, with a leading `-` when negative.
pub open spec fn signed_dec(n: int) -> Seq<char> {
    if n < 0 {
        seq!['-'] + dec((-n) as nat)
    } else {
        dec(n as nat)
    }
}

/// The absolute value of an integer.
pub open spec fn abs(n: int) -> nat {
    if n < 0 {
        (-n) as nat
    } else {
        n as nat
    }
}

/// A value given in hundredths, rendered with exactly two fraction digits
/// (`150` is `1.50`, `-5` is `-0.05`).
pub open spec fn fixed2(n: int) -> Seq<char> {
    (if n < 0 { seq!['-'] } else { Seq::<char>::empty() }) + dec(abs(n) / 100) + seq![
        '.',
        digit_char((abs(n) % 100) / 10),
        digit_char(abs(n) % 10),
    ]
}

/// As [`fixed2`], with a `+` in front of values that are not negative.
pub open spec fn fixed2_signed(n: int) -> Seq<char> {
    if n < 0 {
        fixed2(n)
    } else {
        seq!['+'] + fixed2(n)
    }
}

/// A value given in millionths, rendered with exactly six fraction digits.
pub open spec fn fixed6(n: int) -> Seq<char> {
    (if n < 0 { seq!['-'] } else { Seq::<char>::empty() }) + dec(abs(n) / 1000000) + seq!['.']
        + six_digits(abs(n) % 1000000)
}

/// Six decimal digits of a number below one million, with leading zeros.
pub open spec fn six_digits(n: nat) -> Seq<char> {
    seq![
        digit_char(n / 100000),
        digit_char((n / 10000) % 10),
        digit_char((n / 1000) % 10),
        digit_char((n / 100) % 10),
        digit_char((n / 10) % 10),
        digit_char(n % 10),
    ]
}

/// Unicode `White_Space`, the set that `char::is_whitespace` recognises.
pub open spec fn is_ws(c: char) -> bool {
    ||| c == '\t'
    ||| c == '\n'
    ||| c == '\u{0B}'
    ||| c == '\u{0C}'
    ||| c == '\r'
    ||| c == ' '
    ||| c == '\u{85}'
    ||| c == '\u{A0}'
    ||| c == '\u{1680}'
    ||| ('\u{2000}' <= c && c <= '\u{200A}')
    ||| c == '\u{2028}'
    ||| c == '\u{2029}'
    ||| c == '\u{202F}'
    ||| c == '\u{205F}'
    ||| c == '\u{3000}'
}

/// `s` without its leading whitespace.
pub open spec fn ltrim(s: Seq<char>) -> Seq<char>
    decreases s.len(),
{
    if s.len() > 0 && is_ws(s[0]) {
        ltrim(s.subrange(1, s.len() as int))
    } else {
        s
    }
}

/// `s` without its trailing whitespace.
pub open spec fn rtrim(s: Seq<char>) -> Seq<char>
    decreases s.len(),
{
    if s.len() > 0 && is_ws(s.last()) {
        rtrim(s.drop_last())
    } else {
        s
    }
}

/// `s` without leading and trailing whitespace (what `str::trim` returns).
pub open spec fn trim(s: Seq<char>) -> Seq<char> {
    rtrim(ltrim(s))
}

/// The items of `list` separated by `sep`.
pub open spec fn join(list: Seq<Seq<char>>, sep: Seq<char>) -> Seq<char>
    decreases list.len(),
{
    if list.len() == 0 {
        Seq::<char>::empty()
    } else if list.len() == 1 {
        list[0]
    } else {
        join(list.drop_last(), sep) + sep + list.last()
    }
}

/// The character sequences of a sequence of strings.
pub open spec fn strs(v: Seq<String>) -> Seq<Seq<char>> {
    v.map_values(|s: String| s@)
}

/// `base` joined with `comp` as `Path::join` joins them, with the
/// platform's separator.
pub uninterp spec fn path_join(base: Seq<char>, comp: Seq<char>) -> Seq<char>;

/// The position of the first `c` in `s`, if `s` holds one.
pub open spec fn first_index(s: Seq<char>, c: char) -> Option<int> {
    if exists|i: int| 0 <= i < s.len() && s[i] == c {
        Some(choose|i: int| 0 <= i < s.len() && s[i] == c && forall|j: int| 0 <= j < i ==> s[j] != c)
    } else {
        None
    }
}

/// Whether `s` holds the character `c`.
pub open spec fn has_char(s: Seq<char>, c: char) -> bool {
    exists|i: int| 0 <= i < s.len() && s[i] == c
}

// ───────────────────────── lemmas ─────────────────────────

proof fn lemma_ltrim_at(s: Seq<char>, i: int)
    requires
        0 <= i <= s.len(),
        forall|k: int| 0 <= k < i ==> is_ws(#[trigger] s[k]),
        i == s.len() || !is_ws(s[i]),
    ensures
        ltrim(s) == s.subrange(i, s.len() as int),
    decreases i,
{
    if i == 0 {
        assert(s.subrange(0, s.len() as int) =~= s);
    } else {
        let t = s.subrange(1, s.len() as int);
        assert forall|k: int| 0 <= k < i - 1 implies is_ws(#[trigger] t[k]) by {
            assert(t[k] == s[k + 1]);
        }
        lemma_ltrim_at(t, i - 1);
        assert(t.subrange(i - 1, t.len() as int) =~= s.subrange(i, s.len() as int));
    }
}

proof fn lemma_rtrim_at(s: Seq<char>, j: int)
    requires
        0 <= j <= s.len(),
        forall|k: int| j <= k < s.len() ==> is_ws(#[trigger] s[k]),
        j == 0 || !is_ws(s[j - 1]),
    ensures
        rtrim(s) == s.subrange(0, j),
    decreases s.len() - j,
{
    if j == s.len() {
        assert(s.subrange(0, j) =~= s);
    } else {
        let t = s.drop_last();
        assert forall|k: int| j <= k < t.len() implies is_ws(#[trigger] t[k]) by {
            assert(t[k] == s[k]);
        }
        lemma_rtrim_at(t, j);
        assert(t.subrange(0, j) =~= s.subrange(0, j));
    }
}

/// A string of one kind of character has it at exactly one place: the
/// position that [`first_index`] picks is the first one.
pub proof fn lemma_first_index(s: Seq<char>, c: char, i: int)
    requires
        0 <= i < s.len(),
        s[i] == c,
        forall|j: int| 0 <= j < i ==> s[j] != c,
    ensures
        first_index(s, c) == Some(i),
{
    let k = choose|k: int| 0 <= k < s.len() && s[k] == c && forall|j: int| 0 <= j < k ==> s[j] != c;
    assert(0 <= k < s.len() && s[k] == c && forall|j: int| 0 <= j < k ==> s[j] != c);
    if k < i {
        assert(s[k] != c);
    }
    if k > i {
        assert(s[i] != c);
    }
}

/// Pushing a string pushes its characters.
pub proof fn lemma_strs_push(v: Seq<String>, s: String)
    ensures
        strs(v.push(s)) == strs(v).push(s@),
{
    assert(strs(v.push(s)) =~= strs(v).push(s@));
}

// ───────────────────────── exec helpers ─────────────────────────

/// Appends one character (`String::push`).
#[verifier::external_body]
pub(crate) fn push_char(s: &mut String, c: char)
    ensures
        final(s)@ == old(s)@.push(c),
{
    s.push(c);
}

/// The decimal digit `d` as a character.
pub fn digit_to_char(d: u64) -> (c: char)
    requires
        d < 10,
    ensures
        c == digit_char(d as nat),
{
    match d {
        0 => '0',
        1 => '1',
        2 => '2',
        3 => '3',
        4 => '4',
        5 => '5',
        6 => '6',
        7 => '7',
        8 => '8',
        _ => '9',
    }
}

/// Decimal rendering of an unsigned number (`u64::to_string`).
pub fn nat_to_string(n: u64) -> (s: String)
    ensures
        s@ == dec(n as nat),
    decreases n,
{
    if n < 10 {
        let mut s = String::new();
        push_char(&mut s, digit_to_char(n));
        assert(s@ =~= seq![digit_char(n as nat)]);
        s
    } else {
        let mut s = nat_to_string(n / 10);
        push_char(&mut s, digit_to_char(n % 10));
        s
    }
}

/// Decimal rendering of a signed number (`i64::to_string`).
pub fn int_to_string(n: i64) -> (s: String)
    ensures
        s@ == signed_dec(n as int),
{
    if n < 0 {
        let m: u64 = (-(n as i128)) as u64;
        let mut s = String::new();
        push_char(&mut s, '-');
        let t = nat_to_string(m);
        s.append(t.as_str());
        assert(s@ =~= seq!['-'] + dec((-n) as nat));
        s
    } else {
        nat_to_string(n as u64)
    }
}

/// Renders a value given in hundredths with two fraction digits; with
/// `plus`, values that are not negative carry a leading `+`.
pub fn fixed2_to_string(n: i64, plus: bool) -> (s: String)
    ensures
        s@ == (if plus { fixed2_signed(n as int) } else { fixed2(n as int) }),
{
    let m: u64 = if n < 0 {
        (-(n as i128)) as u64
    } else {
        n as u64
    };
    assert(m == abs(n as int));
    let mut s = String::new();
    if n < 0 {
        push_char(&mut s, '-');
    } else if plus {
        push_char(&mut s, '+');
    }
    let whole = nat_to_string(m / 100);
    s.append(whole.as_str());
    push_char(&mut s, '.');
    push_char(&mut s, digit_to_char((m % 100) / 10));
    push_char(&mut s, digit_to_char(m % 10));
    proof {
        if n < 0 {
            assert(s@ =~= fixed2(n as int));
        } else if plus {
            assert(s@ =~= fixed2_signed(n as int));
        } else {
            assert(s@ =~= fixed2(n as int));
        }
    }
    s
}

/// Renders a value given in millionths with six fraction digits.
pub fn fixed6_to_string(n: i128) -> (s: String)
    requires
        -0x1_0000_0000_0000_0000 < n < 0x1_0000_0000_0000_0000,
    ensures
        s@ == fixed6(n as int),
{
    let m: u128 = if n < 0 {
        (-n) as u128
    } else {
        n as u128
    };
    assert(m == abs(n as int));
    let mut s = String::new();
    if n < 0 {
        push_char(&mut s, '-');
    }
    let whole = nat_to_string((m / 1000000) as u64);
    s.append(whole.as_str());
    push_char(&mut s, '.');
    let f: u128 = m % 1000000;
    push_char(&mut s, digit_to_char((f / 100000) as u64));
    push_char(&mut s, digit_to_char(((f / 10000) % 10) as u64));
    push_char(&mut s, digit_to_char(((f / 1000) % 10) as u64));
    push_char(&mut s, digit_to_char(((f / 100) % 10) as u64));
    push_char(&mut s, digit_to_char(((f / 10) % 10) as u64));
    push_char(&mut s, digit_to_char((f % 10) as u64));
    assert(s@ =~= fixed6(n as int));
    s
}

/// The characters of a string, in order.
pub fn chars_of(s: &str) -> (v: Vec<char>)
    ensures
        v@ == s@,
{
    let n = s.unicode_len();
    let mut v: Vec<char> = Vec::new();
    let mut i: usize = 0;
    while i < n
        invariant
            n == s@.len(),
            i <= n,
            v@ == s@.subrange(0, i as int),
        decreases n - i,
    {
        let c = s.get_char(i);
        v.push(c);
        i = i + 1;
        assert(v@ =~= s@.subrange(0, i as int));
    }
    assert(s@.subrange(0, n as int) =~= s@);
    v
}

/// A string made of the characters `v[from..to]`.
pub fn string_of_range(v: &Vec<char>, from: usize, to: usize) -> (s: String)
    requires
        from <= to <= v@.len(),
    ensures
        s@ == v@.subrange(from as int, to as int),
{
    let mut s = String::new();
    let mut i: usize = from;
    while i < to
        invariant
            from <= i <= to <= v@.len(),
            s@ == v@.subrange(from as int, i as int),
        decreases to - i,
    {
        push_char(&mut s, v[i]);
        i = i + 1;
        assert(s@ =~= v@.subrange(from as int, i as int));
    }
    s
}

/// Whether `c` is whitespace (`char::is_whitespace`).
pub fn char_is_ws(c: char) -> (b: bool)
    ensures
        b == is_ws(c),
{
    c == '\t' || c == '\n' || c == '\u{0B}' || c == '\u{0C}' || c == '\r' || c == ' ' || c
        == '\u{85}' || c == '\u{A0}' || c == '\u{1680}' || ('\u{2000}' <= c && c <= '\u{200A}')
        || c == '\u{2028}' || c == '\u{2029}' || c == '\u{202F}' || c == '\u{205F}' || c
        == '\u{3000}'
}

/// The characters `v[from..to]` without leading and trailing whitespace
/// (`str::trim`).
pub fn trim_range(v: &Vec<char>, from: usize, to: usize) -> (s: String)
    requires
        from <= to <= v@.len(),
    ensures
        s@ == trim(v@.subrange(from as int, to as int)),
{
    let ghost t = v@.subrange(from as int, to as int);
    let mut i: usize = from;
    while i < to && char_is_ws(v[i])
        invariant
            from <= i <= to <= v@.len(),
            t == v@.subrange(from as int, to as int),
            forall|k: int| from <= k < i ==> is_ws(#[trigger] v@[k]),
        decreases to - i,
    {
        i = i + 1;
    }
    proof {
        assert forall|k: int| 0 <= k < i - from implies is_ws(#[trigger] t[k]) by {
            assert(t[k] == v@[k + from]);
        }
        lemma_ltrim_at(t, i - from);
    }
    let ghost u = v@.subrange(i as int, to as int);
    assert(ltrim(t) =~= u);
    let mut j: usize = to;
    while j > i && char_is_ws(v[j - 1])
        invariant
            from <= i <= j <= to <= v@.len(),
            forall|k: int| j <= k < to ==> is_ws(#[trigger] v@[k]),
        decreases j - i,
    {
        j = j - 1;
    }
    proof {
        assert forall|k: int| j - i <= k < u.len() implies is_ws(#[trigger] u[k]) by {
            assert(u[k] == v@[k + i]);
        }
        if j > i {
            assert(u[j - i - 1] == v@[j - 1]);
        }
        lemma_rtrim_at(u, j - i);
        assert(u.subrange(0, j - i) =~= v@.subrange(i as int, j as int));
    }
    string_of_range(v, i, j)
}

/// `s` without leading and trailing whitespace (`str::trim`).
pub fn trim_str(s: &str) -> (r: String)
    ensures
        r@ == trim(s@),
{
    let v = chars_of(s);
    assert(v@.subrange(0, v@.len() as int) =~= v@);
    trim_range(&v, 0, v.len())
}

/// The position of the first `c` in `v`.
pub fn find_char(v: &Vec<char>, c: char) -> (r: Option<usize>)
    ensures
        r is None <==> !has_char(v@, c),
        r is None ==> first_index(v@, c) is None,
        r matches Some(i) ==> i < v@.len() && v@[i as int] == c && first_index(v@, c) == Some(
            i as int,
        ),
{
    let mut i: usize = 0;
    while i < v.len()
        invariant
            i <= v@.len(),
            forall|j: int| 0 <= j < i ==> v@[j] != c,
        decreases v@.len() - i,
    {
        if v[i] == c {
            proof {
                lemma_first_index(v@, c, i as int);
            }
            return Some(i);
        }
        i = i + 1;
    }
    None
}

/// Whether the string holds the character `c`.
pub fn str_has_char(s: &str, c: char) -> (b: bool)
    ensures
        b == has_char(s@, c),
{
    let v = chars_of(s);
    find_char(&v, c).is_some()
}

/// The strings of `list` separated by `sep` (`[String]::join`).
pub fn join_strings(list: &Vec<String>, sep: &str) -> (r: String)
    ensures
        r@ == join(strs(list@), sep@),
{
    let ghost l = strs(list@);
    let mut r = String::new();
    let mut i: usize = 0;
    while i < list.len()
        invariant
            i <= list@.len(),
            l == strs(list@),
            r@ == join(l.take(i as int), sep@),
        decreases list@.len() - i,
    {
        assert(l[i as int] == list@[i as int]@);
        if i != 0 {
            r.append(sep);
        }
        r.append(list[i].as_str());
        i = i + 1;
        assert(l.take(i as int).drop_last() =~= l.take(i - 1));
        if i == 1 {
            assert(l.take(1) =~= seq![l[0]]);
            assert(r@ =~= l[0]);
        }
    }
    assert(l.take(list@.len() as int) =~= l);
    r
}

/// A plain file or directory name: not empty, no separator, no drive
/// colon, and not `.` or `..`.
pub open spec fn plain_name(c: Seq<char>) -> bool {
    &&& c.len() > 0
    &&& forall|i: int| 0 <= i < c.len() ==> #[trigger] c[i] != '/' && c[i] != '\\' && c[i] != ':'
    &&& c != seq!['.']
    &&& c != seq!['.', '.']
}

/// `s` ends with `t`.
pub open spec fn ends_with(s: Seq<char>, t: Seq<char>) -> bool {
    s.len() >= t.len() && s.subrange(s.len() - t.len(), s.len() as int) == t
}

/// `Path::new(base).join(comp)` as text. Claims that the result is a
/// function of the two texts alone, named [`path_join`], and that joining
/// a plain name puts that name last (`PathBuf::push` appends a relative
/// component after a separator); the separator (`/` on Unix, `\\` on
/// Windows) and how an absolute or prefixed `comp` replaces `base` depend
/// on the platform and are left unsaid.
#[verifier::external_body]
pub(crate) fn join_path(base: &str, comp: &str) -> (r: String)
    ensures
        r@ == path_join(base@, comp@),
        plain_name(comp@) ==> ends_with(r@, comp@),
{
    std::path::Path::new(base).join(comp).to_string_lossy().into_owned()
}

// ───────────────────────── words ─────────────────────────

/// A left-to-right scan of `s` for whitespace-separated words: the words
/// finished so far, and the word being read.
pub open spec fn scan_words(s: Seq<char>) -> (Seq<Seq<char>>, Seq<char>)
    decreases s.len(),
{
    if s.len() == 0 {
        (Seq::empty(), Seq::empty())
    } else {
        let (done, cur) = scan_words(s.drop_last());
        if is_ws(s.last()) {
            if cur.len() > 0 {
                (done.push(cur), Seq::empty())
            } else {
                (done, Seq::empty())
            }
        } else {
            (done, cur.push(s.last()))
        }
    }
}

/// The maximal runs of non-whitespace characters of `s`, in order
/// (`str::split_whitespace`).
pub open spec fn words(s: Seq<char>) -> Seq<Seq<char>> {
    let (done, cur) = scan_words(s);
    if cur.len() > 0 {
        done.push(cur)
    } else {
        done
    }
}

/// A word: not empty, and without whitespace.
pub open spec fn is_word(w: Seq<char>) -> bool {
    w.len() > 0 && forall|j: int| 0 <= j < w.len() ==> !is_ws(#[trigger] w[j])
}

/// Reading more non-whitespace characters only extends the current word.
proof fn lemma_scan_words_append_word(y: Seq<char>, w: Seq<char>)
    requires
        forall|j: int| 0 <= j < w.len() ==> !is_ws(#[trigger] w[j]),
    ensures
        scan_words(y + w) == (scan_words(y).0, scan_words(y).1 + w),
    decreases w.len(),
{
    if w.len() == 0 {
        assert(y + w =~= y);
        assert(scan_words(y).1 + w =~= scan_words(y).1);
    } else {
        let w0 = w.drop_last();
        assert((y + w).drop_last() =~= y + w0);
        assert((y + w).last() == w.last());
        assert(!is_ws(w[w.len() - 1]));
        lemma_scan_words_append_word(y, w0);
        assert((scan_words(y).1 + w0).push(w.last()) =~= scan_words(y).1 + w);
    }
}

/// The words of a single word are that word.
proof fn lemma_scan_words_word(w: Seq<char>)
    requires
        forall|j: int| 0 <= j < w.len() ==> !is_ws(#[trigger] w[j]),
    ensures
        scan_words(w) == (Seq::<Seq<char>>::empty(), w),
{
    lemma_scan_words_append_word(Seq::empty(), w);
    assert(Seq::<char>::empty() + w =~= w);
    assert(Seq::<char>::empty() + w =~= w);
}

/// Scanning words joined by single spaces leaves all but the last finished
/// and reads the last.
proof fn lemma_scan_words_join(args: Seq<Seq<char>>)
    requires
        args.len() > 0,
        forall|i: int| 0 <= i < args.len() ==> is_word(#[trigger] args[i]),
    ensures
        scan_words(join(args, " "@)) == (args.drop_last(), args.last()),
    decreases args.len(),
{
    reveal_strlit(" ");
    if args.len() == 1 {
        assert(is_word(args[0]));
        lemma_scan_words_word(args[0]);
        assert(args.drop_last() =~= Seq::<Seq<char>>::empty());
    } else {
        let front = args.drop_last();
        assert forall|i: int| 0 <= i < front.len() implies is_word(#[trigger] front[i]) by {
            assert(front[i] == args[i]);
        }
        lemma_scan_words_join(front);
        let x = join(front, " "@);
        let xs = x + " "@;
        assert(xs.drop_last() =~= x);
        assert(xs.last() == ' ');
        assert(front.last().len() > 0) by {
            assert(is_word(args[args.len() - 2]));
        }
        assert(scan_words(xs) == (front.drop_last().push(front.last()), Seq::<char>::empty()));
        assert(front.drop_last().push(front.last()) =~= front);
        assert(is_word(args.last())) by {
            assert(is_word(args[args.len() - 1]));
        }
        lemma_scan_words_append_word(xs, args.last());
        assert(Seq::<char>::empty() + args.last() =~= args.last());
    }
}

/// Every word found is a word, and so is every prefix of the one being
/// read, when not empty.
proof fn lemma_scan_words_are_words(s: Seq<char>)
    ensures
        forall|i: int| 0 <= i < scan_words(s).0.len() ==> is_word(#[trigger] scan_words(s).0[i]),
        forall|j: int| 0 <= j < scan_words(s).1.len() ==> !is_ws(#[trigger] scan_words(s).1[j]),
    decreases s.len(),
{
    if s.len() > 0 {
        lemma_scan_words_are_words(s.drop_last());
        let (done, cur) = scan_words(s.drop_last());
        if is_ws(s.last()) {
            if cur.len() > 0 {
                assert forall|i: int| 0 <= i < done.push(cur).len() implies is_word(
                    #[trigger] done.push(cur)[i],
                ) by {
                    if i == done.len() {
                        assert(done.push(cur)[i] == cur);
                    } else {
                        assert(done.push(cur)[i] == done[i]);
                    }
                }
            }
        } else {
            assert forall|j: int| 0 <= j < cur.push(s.last()).len() implies !is_ws(
                #[trigger] cur.push(s.last())[j],
            ) by {
                if j < cur.len() {
                    assert(cur.push(s.last())[j] == cur[j]);
                }
            }
        }
    }
}

/// Every item of [`words`] is a word.
pub proof fn lemma_words_are_words(s: Seq<char>)
    ensures
        forall|i: int| 0 <= i < words(s).len() ==> is_word(#[trigger] words(s)[i]),
{
    lemma_scan_words_are_words(s);
    let (done, cur) = scan_words(s);
    if cur.len() > 0 {
        assert forall|i: int| 0 <= i < words(s).len() implies is_word(#[trigger] words(s)[i]) by {
            if i == done.len() {
                assert(words(s)[i] == cur);
            } else {
                assert(words(s)[i] == done[i]);
            }
        }
    }
}

/// Words joined by single spaces split back into the same words.
pub proof fn lemma_words_of_joined(args: Seq<Seq<char>>)
    requires
        forall|i: int| 0 <= i < args.len() ==> is_word(#[trigger] args[i]),
    ensures
        words(join(args, " "@)) == args,
{
    if args.len() == 0 {
        assert(scan_words(Seq::<char>::empty()) == (Seq::<Seq<char>>::empty(), Seq::<char>::empty()));
        assert(join(args, " "@) =~= Seq::<char>::empty());
    } else {
        lemma_scan_words_join(args);
        assert(args.last().len() > 0) by {
            assert(is_word(args[args.len() - 1]));
        }
        assert(args.drop_last().push(args.last()) =~= args);
    }
}

/// The whitespace-separated words of `s` (`str::split_whitespace`).
pub fn split_words(s: &str) -> (r: Vec<String>)
    ensures
        strs(r@) == words(s@),
{
    let v = chars_of(s);
    let mut done: Vec<String> = Vec::new();
    let mut cur = String::new();
    let mut i: usize = 0;
    while i < v.len()
        invariant
            i <= v@.len(),
            v@ == s@,
            (strs(done@), cur@) == scan_words(v@.take(i as int)),
        decreases v@.len() - i,
    {
        let c = v[i];
        let ghost before = v@.take(i as int);
        assert(v@.take(i + 1).drop_last() =~= before);
        assert(v@.take(i + 1).last() == c);
        if char_is_ws(c) {
            if cur.unicode_len() > 0 {
                let mut w = String::new();
                std::mem::swap(&mut w, &mut cur);
                proof {
                    lemma_strs_push(done@, w);
                }
                done.push(w);
            }
        } else {
            push_char(&mut cur, c);
        }
        i = i + 1;
    }
    assert(v@.take(v@.len() as int) =~= v@);
    if cur.unicode_len() > 0 {
        proof {
            lemma_strs_push(done@, cur);
        }
        done.push(cur);
    }
    done
}

/// A copy of a string literal or slice as an owned `String`.
pub fn owned(s: &str) -> (r: String)
    ensures
        r@ == s@,
{
    s.to_owned()
}

} // verus!

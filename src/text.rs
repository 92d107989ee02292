use vstd::prelude::*;

verus! {

/// The views of a sequence of character vectors.
pub open spec fn views(v: Seq<Vec<char>>) -> Seq<Seq<char>> {
    v.map_values(|x: Vec<char>| x@)
}

/// Blank characters: those with the Unicode `White_Space` property (tab to carriage
/// return, space, next line, no-break space, the Unicode spaces and separators).
pub open spec fn is_space(c: char) -> bool {
    let u = c as u32;
    (0x09 <= u <= 0x0d) || u == 0x20 || u == 0x85 || u == 0xa0 || u == 0x1680 || (0x2000 <= u
        <= 0x200a) || u == 0x2028 || u == 0x2029 || u == 0x202f || u == 0x205f || u == 0x3000
}

/// Separator of a split: a line feed, or any blank when splitting into words.
pub open spec fn is_sep(c: char, newline: bool) -> bool {
    if newline {
        c == '\n'
    } else {
        is_space(c)
    }
}

/// The pieces of `s` between separators; always at least one piece, possibly empty.
pub open spec fn split_pieces(s: Seq<char>, newline: bool) -> Seq<Seq<char>>
    decreases s.len(),
{
    if s.len() == 0 {
        seq![Seq::<char>::empty()]
    } else {
        let prev = split_pieces(s.drop_last(), newline);
        if is_sep(s.last(), newline) {
            prev.push(Seq::<char>::empty())
        } else {
            prev.update(prev.len() - 1, prev.last().push(s.last()))
        }
    }
}

/// The lines of a text: the pieces between line feeds, without an empty last piece.
pub open spec fn text_lines(s: Seq<char>) -> Seq<Seq<char>> {
    let p = split_pieces(s, true);
    if p.last().len() == 0 {
        p.drop_last()
    } else {
        p
    }
}

/// The whitespace-separated words of a text.
pub open spec fn words(s: Seq<char>) -> Seq<Seq<char>> {
    drop_empty(split_pieces(s, false))
}

/// The non-empty members of `p`, in order.
pub open spec fn drop_empty(p: Seq<Seq<char>>) -> Seq<Seq<char>>
    decreases p.len(),
{
    if p.len() == 0 {
        p
    } else if p.last().len() > 0 {
        drop_empty(p.drop_last()).push(p.last())
    } else {
        drop_empty(p.drop_last())
    }
}

pub open spec fn trim_start(s: Seq<char>) -> Seq<char>
    decreases s.len(),
{
    if s.len() > 0 && is_space(s[0]) {
        trim_start(s.drop_first())
    } else {
        s
    }
}

pub open spec fn trim_end(s: Seq<char>) -> Seq<char>
    decreases s.len(),
{
    if s.len() > 0 && is_space(s.last()) {
        trim_end(s.drop_last())
    } else {
        s
    }
}

/// `s` without leading and trailing blanks.
pub open spec fn trim(s: Seq<char>) -> Seq<char> {
    trim_end(trim_start(s))
}

/// `pat` occurs in `s` as a contiguous run.
pub open spec fn contains(s: Seq<char>, pat: Seq<char>) -> bool {
    exists|i: int| 0 <= i <= s.len() - pat.len() && #[trigger] s.subrange(i, i + pat.len()) == pat
}

pub open spec fn is_digit(c: char) -> bool {
    '0' <= c <= '9'
}

pub open spec fn all_digits(s: Seq<char>) -> bool {
    forall|i: int| 0 <= i < s.len() ==> is_digit(#[trigger] s[i])
}

pub open spec fn digit_value(c: char) -> nat {
    (c as u32 - '0' as u32) as nat
}

/// The number that a run of decimal digits denotes.
pub open spec fn digits_value(s: Seq<char>) -> nat
    decreases s.len(),
{
    if s.len() == 0 {
        0
    } else {
        digits_value(s.drop_last()) * 10 + digit_value(s.last())
    }
}

/// The digits of an unsigned number, past an optional leading `+`.
pub open spec fn unsigned_digits(s: Seq<char>) -> Seq<char> {
    if s.len() > 0 && s[0] == '+' {
        s.drop_first()
    } else {
        s
    }
}

/// An unsigned decimal number that fits in 64 bits, or `None`.
pub open spec fn parse_u64(s: Seq<char>) -> Option<u64> {
    let d = unsigned_digits(s);
    if d.len() > 0 && all_digits(d) && digits_value(d) <= u64::MAX {
        Some(digits_value(d) as u64)
    } else {
        None
    }
}

/// A run of decimal digits whose number fits in 64 bits, or `None`.
pub open spec fn parse_digits(d: Seq<char>) -> Option<u64> {
    if d.len() > 0 && all_digits(d) && digits_value(d) <= u64::MAX {
        Some(digits_value(d) as u64)
    } else {
        None
    }
}

/// Position of the first `c` in `s`.
pub open spec fn index_of(s: Seq<char>, c: char) -> Option<int>
    decreases s.len(),
{
    if s.len() == 0 {
        None
    } else if s[0] == c {
        Some(0)
    } else {
        match index_of(s.drop_first(), c) {
            Some(k) => Some(k + 1),
            None => None,
        }
    }
}

/// A position moved on by `by`.
pub open spec fn shifted(o: Option<int>, by: int) -> Option<int> {
    match o {
        Some(k) => Some(k + by),
        None => None,
    }
}

/// Thousandths that the digits after a decimal point stand for, past the third dropped.
pub open spec fn frac_milli(f: Seq<char>) -> nat {
    if f.len() >= 3 {
        digits_value(f.take(3))
    } else if f.len() == 2 {
        digits_value(f) * 10
    } else if f.len() == 1 {
        digits_value(f) * 100
    } else {
        0
    }
}

/// A non-negative decimal fraction (`12`, `0.52`, `+3.`), in thousandths; `None` when
/// malformed or too large for 64 bits.
pub open spec fn parse_milli(s: Seq<char>) -> Option<u64> {
    let d = unsigned_digits(s);
    let (ip, fp) = match index_of(d, '.') {
        Some(k) => (d.take(k), d.skip(k + 1)),
        None => (d, Seq::<char>::empty()),
    };
    if ip.len() > 0 && all_digits(ip) && all_digits(fp) && digits_value(ip) * 1000 + frac_milli(fp)
        <= u64::MAX {
        Some((digits_value(ip) * 1000 + frac_milli(fp)) as u64)
    } else {
        None
    }
}

/// The character of a decimal digit.
pub open spec fn digit_char(d: nat) -> char {
    if d == 0 {
        '0'
    } else if d == 1 {
        '1'
    } else if d == 2 {
        '2'
    } else if d == 3 {
        '3'
    } else if d == 4 {
        '4'
    } else if d == 5 {
        '5'
    } else if d == 6 {
        '6'
    } else if d == 7 {
        '7'
    } else if d == 8 {
        '8'
    } else {
        '9'
    }
}

/// The decimal digits of `n`, without leading zeros.
pub open spec fn decimal(n: nat) -> Seq<char>
    decreases n,
{
    if n < 10 {
        seq![digit_char(n)]
    } else {
        decimal(n / 10).push(digit_char(n % 10))
    }
}

proof fn lemma_pieces_nonempty(s: Seq<char>, newline: bool)
    ensures
        split_pieces(s, newline).len() >= 1,
    decreases s.len(),
{
    if s.len() > 0 {
        lemma_pieces_nonempty(s.drop_last(), newline);
    }
}

proof fn lemma_digits_prefix(s: Seq<char>, k: int)
    requires
        0 <= k <= s.len(),
    ensures
        digits_value(s.take(k)) <= digits_value(s),
    decreases s.len(),
{
    if k < s.len() {
        lemma_digits_prefix(s.drop_last(), k);
        assert(s.drop_last().take(k) == s.take(k));
    } else {
        assert(s.take(k) == s);
    }
}

/// The characters of `s`.
pub fn chars_of(s: &str) -> (r: Vec<char>)
    ensures
        r@ == s@,
{
    let n = s.unicode_len();
    let mut r: Vec<char> = Vec::new();
    let mut i: usize = 0;
    while i < n
        invariant
            n == s@.len(),
            i <= n,
            r@ == s@.take(i as int),
        decreases n - i,
    {
        r.push(s.get_char(i));
        i = i + 1;
        assert(r@ =~= s@.take(i as int));
    }
    assert(s@.take(n as int) =~= s@);
    r
}

pub fn is_space_char(c: char) -> (r: bool)
    ensures
        r == is_space(c),
{
    let u = c as u32;
    (0x09 <= u && u <= 0x0d) || u == 0x20 || u == 0x85 || u == 0xa0 || u == 0x1680 || (0x2000 <= u
        && u <= 0x200a) || u == 0x2028 || u == 0x2029 || u == 0x202f || u == 0x205f || u == 0x3000
}

/// Splits `s` at each separator, as `split_pieces` does.
pub fn split_at_seps(s: &Vec<char>, newline: bool) -> (r: Vec<Vec<char>>)
    ensures
        views(r@) == split_pieces(s@, newline),
{
    let mut done: Vec<Vec<char>> = Vec::new();
    let mut cur: Vec<char> = Vec::new();
    let mut i: usize = 0;
    while i < s.len()
        invariant
            i <= s.len(),
            views(done@).push(cur@) == split_pieces(s@.take(i as int), newline),
        decreases s.len() - i,
    {
        let c = s[i];
        let sep = if newline {
            c == '\n'
        } else {
            is_space_char(c)
        };
        proof {
            lemma_pieces_nonempty(s@.take(i as int), newline);
            assert(s@.take(i + 1).drop_last() =~= s@.take(i as int));
        }
        if sep {
            done.push(cur);
            cur = Vec::new();
            assert(views(done@).push(cur@) =~= split_pieces(s@.take(i + 1), newline));
        } else {
            cur.push(c);
            assert(views(done@).push(cur@) =~= split_pieces(s@.take(i + 1), newline));
        }
        i = i + 1;
    }
    assert(s@.take(s.len() as int) =~= s@);
    done.push(cur);
    assert(views(done@) =~= split_pieces(s@, newline));
    done
}

/// The lines of `s`, as `text_lines` gives them.
pub fn lines_of(s: &Vec<char>) -> (r: Vec<Vec<char>>)
    ensures
        views(r@) == text_lines(s@),
{
    let mut p = split_at_seps(s, true);
    proof {
        lemma_pieces_nonempty(s@, true);
    }
    let n = p.len();
    if p[n - 1].len() == 0 {
        p.pop();
        assert(views(p@) =~= text_lines(s@));
    }
    p
}

/// The words of `s`, as `words` gives them.
pub fn words_of(s: &Vec<char>) -> (r: Vec<Vec<char>>)
    ensures
        views(r@) == words(s@),
{
    let p = split_at_seps(s, false);
    let ghost pv = split_pieces(s@, false);
    let mut r: Vec<Vec<char>> = Vec::new();
    let mut i: usize = 0;
    while i < p.len()
        invariant
            i <= p.len(),
            views(p@) == pv,
            views(r@) == drop_empty(pv.take(i as int)),
        decreases p.len() - i,
    {
        assert(pv.take(i + 1).drop_last() =~= pv.take(i as int));
        assert(pv[i as int] == p@[i as int]@);
        if p[i].len() > 0 {
            r.push(p[i].clone());
        }
        assert(views(r@) =~= drop_empty(pv.take(i + 1)));
        i = i + 1;
    }
    assert(pv.take(p.len() as int) =~= pv);
    r
}

/// `s` without leading and trailing blanks.
pub fn trim_chars(s: &Vec<char>) -> (r: Vec<char>)
    ensures
        r@ == trim(s@),
{
    let n = s.len();
    let mut a: usize = 0;
    assert(s@.subrange(0, n as int) =~= s@);
    while a < n && is_space_char(s[a])
        invariant
            a <= n == s.len(),
            trim_start(s@) == trim_start(s@.subrange(a as int, n as int)),
        decreases n - a,
    {
        assert(s@.subrange(a as int, n as int).drop_first() =~= s@.subrange(a + 1, n as int));
        a = a + 1;
    }
    let mut b: usize = n;
    while b > a && is_space_char(s[b - 1])
        invariant
            a <= b <= n == s.len(),
            trim(s@) == trim_end(s@.subrange(a as int, b as int)),
        decreases b,
    {
        assert(s@.subrange(a as int, b as int).drop_last() =~= s@.subrange(a as int, b - 1));
        b = b - 1;
    }
    let mut r: Vec<char> = Vec::new();
    let mut k: usize = a;
    while k < b
        invariant
            a <= k <= b <= n == s.len(),
            r@ == s@.subrange(a as int, k as int),
        decreases b - k,
    {
        r.push(s[k]);
        k = k + 1;
        assert(r@ =~= s@.subrange(a as int, k as int));
    }
    r
}

/// Whether `a` and `b` hold the same characters.
pub fn same_chars(a: &Vec<char>, b: &Vec<char>) -> (r: bool)
    ensures
        r == (a@ == b@),
{
    if a.len() != b.len() {
        return false;
    }
    let mut i: usize = 0;
    while i < a.len()
        invariant
            a.len() == b.len(),
            i <= a.len(),
            a@.take(i as int) == b@.take(i as int),
        decreases a.len() - i,
    {
        if a[i] != b[i] {
            assert(a@[i as int] != b@[i as int]);
            return false;
        }
        i = i + 1;
        assert(a@.take(i as int) =~= b@.take(i as int));
    }
    assert(a@ =~= a@.take(a.len() as int));
    assert(b@ =~= b@.take(b.len() as int));
    true
}

/// Whether `pat` occurs in `s` starting at position `at`.
fn occurs_at(s: &Vec<char>, pat: &Vec<char>, at: usize) -> (r: bool)
    requires
        at + pat.len() <= s.len(),
    ensures
        r == (s@.subrange(at as int, at + pat.len()) == pat@),
{
    let mut k: usize = 0;
    while k < pat.len()
        invariant
            at + pat.len() <= s.len(),
            k <= pat.len(),
            s@.subrange(at as int, at + k) == pat@.take(k as int),
        decreases pat.len() - k,
    {
        if s[at + k] != pat[k] {
            assert(s@.subrange(at as int, at + pat.len())[k as int] != pat@[k as int]);
            return false;
        }
        k = k + 1;
        assert(s@.subrange(at as int, at + k) =~= pat@.take(k as int));
    }
    assert(pat@ =~= pat@.take(pat.len() as int));
    true
}

/// Whether `pat` occurs in `s`.
pub fn contains_chars(s: &Vec<char>, pat: &Vec<char>) -> (r: bool)
    ensures
        r == contains(s@, pat@),
{
    if pat.len() == 0 {
        assert(s@.subrange(0, 0 + pat@.len() as int) =~= pat@);
        return true;
    }
    if pat.len() > s.len() {
        return false;
    }
    let last = s.len() - pat.len();
    let mut i: usize = 0;
    while i <= last
        invariant
            last + pat.len() == s.len(),
            pat.len() > 0,
            i <= last + 1,
            forall|j: int| 0 <= j < i ==> #[trigger] s@.subrange(j, j + pat@.len()) != pat@,
        decreases last + 1 - i,
    {
        if occurs_at(s, pat, i) {
            return true;
        }
        i = i + 1;
    }
    false
}

/// Whether `s` contains the text `pat`.
pub fn contains_str(s: &Vec<char>, pat: &str) -> (r: bool)
    ensures
        r == contains(s@, pat@),
{
    let p = chars_of(pat);
    contains_chars(s, &p)
}

/// A copy of `s[from..to]`.
pub fn slice_chars(s: &Vec<char>, from: usize, to: usize) -> (r: Vec<char>)
    requires
        from <= to <= s.len(),
    ensures
        r@ == s@.subrange(from as int, to as int),
{
    let mut r: Vec<char> = Vec::new();
    let mut k: usize = from;
    while k < to
        invariant
            from <= k <= to <= s.len(),
            r@ == s@.subrange(from as int, k as int),
        decreases to - k,
    {
        r.push(s[k]);
        k = k + 1;
        assert(r@ =~= s@.subrange(from as int, k as int));
    }
    r
}

/// A copy of `s`.
pub fn copy_chars(s: &Vec<char>) -> (r: Vec<char>)
    ensures
        r@ == s@,
{
    let r = slice_chars(s, 0, s.len());
    assert(s@.subrange(0, s.len() as int) =~= s@);
    r
}

/// Reads a run of decimal digits, as `parse_digits` states.
pub fn parse_digits_chars(d: &Vec<char>) -> (r: Option<u64>)
    ensures
        r == parse_digits(d@),
{
    if d.len() == 0 {
        return None;
    }
    let mut v: u64 = 0;
    let mut i: usize = 0;
    while i < d.len()
        invariant
            i <= d.len(),
            all_digits(d@.take(i as int)),
            v == digits_value(d@.take(i as int)),
        decreases d.len() - i,
    {
        let c = d[i];
        if !('0' <= c && c <= '9') {
            assert(!is_digit(d@[i as int]));
            return None;
        }
        let dv = (c as u32 - '0' as u32) as u64;
        assert(d@.take(i + 1).drop_last() =~= d@.take(i as int));
        assert(all_digits(d@.take(i + 1)));
        if v > (u64::MAX - dv) / 10 {
            proof {
                assert(digits_value(d@.take(i + 1)) == v * 10 + dv);
                assert(v * 10 + dv > u64::MAX) by (nonlinear_arith)
                    requires
                        v > (u64::MAX - dv) / 10,
                        dv <= 9,
                ;
                lemma_digits_prefix(d@, i + 1);
            }
            return None;
        }
        assert(v * 10 + dv <= u64::MAX) by (nonlinear_arith)
            requires
                v <= (u64::MAX - dv) / 10,
                dv <= 9,
        ;
        v = v * 10 + dv;
        i = i + 1;
    }
    assert(d@.take(d.len() as int) =~= d@);
    Some(v)
}

/// Past an optional leading `+`.
fn unsigned_part(s: &Vec<char>) -> (r: Vec<char>)
    ensures
        r@ == unsigned_digits(s@),
{
    if s.len() > 0 && s[0] == '+' {
        slice_chars(s, 1, s.len())
    } else {
        slice_chars(s, 0, s.len())
    }
}

/// Reads an unsigned decimal number, as `parse_u64` states.
pub fn parse_u64_chars(s: &Vec<char>) -> (r: Option<u64>)
    ensures
        r == parse_u64(s@),
{
    let d = unsigned_part(s);
    parse_digits_chars(&d)
}

/// Position of the first `c` in `s`, as `index_of` states.
pub fn find_char(s: &Vec<char>, c: char) -> (r: Option<usize>)
    ensures
        r matches Some(k) ==> index_of(s@, c) == Some(k as int) && k < s.len(),
        r is None ==> index_of(s@, c) is None,
{
    let mut i: usize = 0;
    assert(s@.skip(0) =~= s@);
    while i < s.len()
        invariant
            i <= s.len(),
            index_of(s@, c) == shifted(index_of(s@.skip(i as int), c), i as int),
        decreases s.len() - i,
    {
        if s[i] == c {
            return Some(i);
        }
        assert(s@.skip(i as int).drop_first() =~= s@.skip(i + 1));
        i = i + 1;
    }
    None
}

/// Reads a decimal fraction in thousandths, as `parse_milli` states.
pub fn parse_milli_chars(s: &Vec<char>) -> (r: Option<u64>)
    ensures
        r == parse_milli(s@),
{
    let d = unsigned_part(s);
    let ghost (ipg, fpg) = match index_of(d@, '.') {
        Some(k) => (d@.take(k), d@.skip(k + 1)),
        None => (d@, Seq::<char>::empty()),
    };
    let (ip, fp) = match find_char(&d, '.') {
        Some(k) => (slice_chars(&d, 0, k), slice_chars(&d, k + 1, d.len())),
        None => (slice_chars(&d, 0, d.len()), Vec::new()),
    };
    assert(d@.subrange(0, d@.len() as int) =~= d@);
    proof {
        if let Some(k) = index_of(d@, '.') {
            assert(d@.subrange(0, k) =~= d@.take(k));
            assert(d@.subrange(k + 1, d@.len() as int) =~= d@.skip(k + 1));
        }
        assert(fp@.len() == 0 ==> fp@ =~= Seq::<char>::empty());
    }
    assert(ip@ == ipg && fp@ == fpg);
    let iv = match parse_digits_chars(&ip) {
        Some(v) => v,
        None => {
            let ghost dv = digits_value(ip@);
            assert(dv * 1000 >= dv) by (nonlinear_arith);
            return None;
        },
    };
    let flen = fp.len();
    let mut i: usize = 0;
    let ghost verdict = if ipg.len() > 0 && all_digits(ipg) && all_digits(fpg) && digits_value(ipg)
        * 1000 + frac_milli(fpg) <= u64::MAX {
        Some((digits_value(ipg) * 1000 + frac_milli(fpg)) as u64)
    } else {
        None
    };
    assert(parse_milli(s@) == verdict);
    while i < flen
        invariant
            parse_milli(s@) == verdict,
            verdict == (if ipg.len() > 0 && all_digits(ipg) && all_digits(fpg) && digits_value(ipg)
                * 1000 + frac_milli(fpg) <= u64::MAX {
                Some((digits_value(ipg) * 1000 + frac_milli(fpg)) as u64)
            } else {
                None
            }),
            ip@ == ipg,
            fp@ == fpg,
            iv == digits_value(ipg),
            ipg.len() > 0 && all_digits(ipg),
            flen == fp.len(),
            i <= flen,
            all_digits(fp@.take(i as int)),
        decreases flen - i,
    {
        if !('0' <= fp[i] && fp[i] <= '9') {
            assert(!is_digit(fp@[i as int]));
            return None;
        }
        i = i + 1;
        assert(fp@.take(i as int).drop_last() =~= fp@.take(i - 1));
    }
    assert(fp@.take(flen as int) =~= fp@);
    let head = if flen >= 3 {
        slice_chars(&fp, 0, 3)
    } else {
        slice_chars(&fp, 0, flen)
    };
    assert(fp@.subrange(0, flen as int) =~= fp@);
    assert(flen >= 3 ==> fp@.subrange(0, 3) =~= fp@.take(3));
    proof {
        assert(all_digits(head@));
    }
    let hv = match parse_digits_chars(&head) {
        Some(v) => v,
        None => 0,
    };
    proof {
        if head@.len() > 0 {
            lemma_digits_bound(head@);
        } else {
            assert(digits_value(head@) == 0);
        }
    }
    let fm: u64 = if flen >= 3 {
        hv
    } else if flen == 2 {
        hv * 10
    } else if flen == 1 {
        hv * 100
    } else {
        0
    };
    assert(fm as nat == frac_milli(fp@));
    if iv > (u64::MAX - fm) / 1000 {
        assert(iv * 1000 + fm > u64::MAX) by (nonlinear_arith)
            requires
                iv > (u64::MAX - fm) / 1000,
                fm <= 999,
        ;
        return None;
    }
    assert(iv * 1000 + fm <= u64::MAX) by (nonlinear_arith)
        requires
            iv <= (u64::MAX - fm) / 1000,
            fm <= 999,
    ;
    Some(iv * 1000 + fm)
}

proof fn lemma_digits_bound(s: Seq<char>)
    requires
        all_digits(s),
        s.len() <= 3,
    ensures
        digits_value(s) < 1000,
        s.len() == 2 ==> digits_value(s) < 100,
        s.len() == 1 ==> digits_value(s) < 10,
    decreases s.len(),
{
    if s.len() > 0 {
        assert(all_digits(s.drop_last()));
        lemma_digits_bound(s.drop_last());
        assert(is_digit(s[s.len() - 1]));
    }
}

/// Relies on `String::push`, which appends one character.
#[verifier::external_body]
pub(crate) fn push_char(s: &mut String, c: char)
    ensures
        final(s)@ == old(s)@.push(c),
{
    s.push(c);
}

/// A string holding the characters of `v`.
pub fn string_of(v: &Vec<char>) -> (r: String)
    ensures
        r@ == v@,
{
    let mut r = String::new();
    let mut i: usize = 0;
    while i < v.len()
        invariant
            i <= v.len(),
            r@ == v@.take(i as int),
        decreases v.len() - i,
    {
        push_char(&mut r, v[i]);
        i = i + 1;
        assert(r@ =~= v@.take(i as int));
    }
    assert(v@.take(v.len() as int) =~= v@);
    r
}

fn digit_of(d: u64) -> (c: char)
    requires
        d < 10,
    ensures
        c == digit_char(d as nat),
{
    if d == 0 {
        '0'
    } else if d == 1 {
        '1'
    } else if d == 2 {
        '2'
    } else if d == 3 {
        '3'
    } else if d == 4 {
        '4'
    } else if d == 5 {
        '5'
    } else if d == 6 {
        '6'
    } else if d == 7 {
        '7'
    } else if d == 8 {
        '8'
    } else {
        '9'
    }
}

/// `n` written in decimal.
pub fn decimal_text(n: u64) -> (r: String)
    ensures
        r@ == decimal(n as nat),
    decreases n,
{
    if n < 10 {
        let mut r = String::new();
        push_char(&mut r, digit_of(n));
        assert(r@ =~= decimal(n as nat));
        r
    } else {
        let mut r = decimal_text(n / 10);
        push_char(&mut r, digit_of(n % 10));
        r
    }
}

/// `a` followed by `b`.
pub fn join2(a: &str, b: &str) -> (r: String)
    ensures
        r@ == a@ + b@,
{
    let mut r = String::from_str(a);
    r.append(b);
    r
}

} // verus!

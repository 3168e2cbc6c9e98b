use vstd::prelude::*;
use vstd::string::*;

verus! {

/// What `str::split(sep)` yields: the pieces between the separators, in
/// order. An empty text yields one empty piece, and each separator starts
/// a new piece, so a text with `k` separators yields `k + 1` pieces.
pub open spec fn split_on(s: Seq<char>, sep: char) -> Seq<Seq<char>>
    decreases s.len(),
{
    if s.len() == 0 {
        seq![Seq::<char>::empty()]
    } else {
        let pieces = split_on(s.drop_last(), sep);
        if s.last() == sep {
            pieces.push(Seq::<char>::empty())
        } else {
            pieces.update(pieces.len() - 1, pieces.last().push(s.last()))
        }
    }
}

/// The pieces joined, with `sep` between each two neighbours.
pub open spec fn join_with(parts: Seq<Seq<char>>, sep: char) -> Seq<char>
    decreases parts.len(),
{
    if parts.len() == 0 {
        Seq::<char>::empty()
    } else if parts.len() == 1 {
        parts[0]
    } else {
        join_with(parts.drop_last(), sep).push(sep) + parts.last()
    }
}

/// An answer as it is stored: each `;` (the stored separator) becomes `,`.
pub open spec fn sanitize(a: Seq<char>) -> Seq<char> {
    a.map_values(|c: char| if c == ';' { ',' } else { c })
}

/// The views of a list of strings.
pub open spec fn views(v: Seq<String>) -> Seq<Seq<char>> {
    v.map_values(|s: String| s@)
}

/// The stored form of a list of answers: each answer sanitized, then all
/// joined by `;`.
pub open spec fn joined_answers(answers: Seq<Seq<char>>) -> Seq<char> {
    join_with(answers.map_values(|a: Seq<char>| sanitize(a)), ';')
}

/// The character of a decimal digit.
pub open spec fn digit_char(d: int) -> char {
    if d == 0 {
        '0'
    } else if d == 1 {
        '1'
    } else if d == 2 {
        '2'
    } else if d == 3 {
        '3'
    } else if d == 4 {
        '4'
    } else if d == 5 {
        '5'
    } else if d == 6 {
        '6'
    } else if d == 7 {
        '7'
    } else if d == 8 {
        '8'
    } else {
        '9'
    }
}

/// The decimal digits of a natural number, most significant first, with
/// no leading zero (zero itself is `0`).
pub open spec fn digits(n: nat) -> Seq<char>
    decreases n,
{
    if n < 10 {
        seq![digit_char(n as int)]
    } else {
        digits(n / 10).push(digit_char((n % 10) as int))
    }
}

/// The decimal rendering of an integer: a `-` before negative numbers.
pub open spec fn decimal(n: int) -> Seq<char> {
    if n < 0 {
        seq!['-'] + digits((-n) as nat)
    } else {
        digits(n as nat)
    }
}

/// The value of a decimal digit character.
pub open spec fn digit_value(c: char) -> int {
    (c as u32) - 0x30
}

/// Whether every character of `s` is one of `0`..`9`.
pub open spec fn all_digits(s: Seq<char>) -> bool {
    forall|i: int| 0 <= i < s.len() ==> 0x30 <= (#[trigger] s[i] as u32) <= 0x39
}

/// The number that a string of decimal digits denotes, read in base 10.
pub open spec fn decimal_value(s: Seq<char>) -> int
    decreases s.len(),
{
    if s.len() == 0 {
        0
    } else {
        decimal_value(s.drop_last()) * 10 + digit_value(s.last())
    }
}

/// The digits of `n` are decimal digits, read back as `n`, at least one of
/// them, and with no leading zero.
pub proof fn lemma_digits_standard(n: nat)
    ensures
        digits(n).len() >= 1,
        all_digits(digits(n)),
        decimal_value(digits(n)) == n,
        n > 0 ==> digits(n)[0] != '0',
        n == 0 ==> digits(n) == seq!['0'],
    decreases n,
{
    let d = digit_char((n % 10) as int);
    assert(0x30 <= (d as u32) <= 0x39 && digit_value(d) == n % 10);
    if n < 10 {
        let s = digits(n);
        assert(s == seq![d]);
        assert(s.drop_last() =~= Seq::<char>::empty());
        assert(decimal_value(s.drop_last()) == 0);
        assert(s.last() == d);
        assert(decimal_value(s) == digit_value(d));
    } else {
        let m = (n / 10) as nat;
        lemma_digits_standard(m);
        let s = digits(n);
        assert(s == digits(m).push(d));
        assert(s.drop_last() =~= digits(m));
        assert(s.last() == d);
        assert(decimal_value(s) == m * 10 + n % 10);
        assert(m * 10 + n % 10 == n);
        assert(s[0] == digits(m)[0]);
        assert forall|i: int| 0 <= i < s.len() implies 0x30 <= (#[trigger] s[i] as u32) <= 0x39 by {
            if i < digits(m).len() {
                assert(s[i] == digits(m)[i]);
            }
        }
    }
}

/// Splitting never yields an empty list.
pub proof fn lemma_split_nonempty(s: Seq<char>, sep: char)
    ensures
        split_on(s, sep).len() >= 1,
    decreases s.len(),
{
    if s.len() > 0 {
        lemma_split_nonempty(s.drop_last(), sep);
    }
}


/// Appending text free of `sep` extends the last piece.
pub proof fn lemma_split_append_plain(a: Seq<char>, b: Seq<char>, sep: char)
    requires
        !b.contains(sep),
    ensures
        split_on(a + b, sep) == split_on(a, sep).update(
            split_on(a, sep).len() - 1,
            split_on(a, sep).last() + b,
        ),
    decreases b.len(),
{
    lemma_split_nonempty(a, sep);
    if b.len() == 0 {
        assert(a + b =~= a);
        assert(split_on(a, sep).last() + b =~= split_on(a, sep).last());
        assert(split_on(a, sep).update(split_on(a, sep).len() - 1, split_on(a, sep).last())
            =~= split_on(a, sep));
    } else {
        let b0 = b.drop_last();
        assert(!b0.contains(sep)) by {
            if b0.contains(sep) {
                let k = choose|k: int| 0 <= k < b0.len() && b0[k] == sep;
                assert(b[k] == sep);
            }
        }
        assert(b.last() != sep) by {
            assert(b[b.len() - 1] == b.last());
        }
        lemma_split_append_plain(a, b0, sep);
        assert((a + b).drop_last() =~= a + b0);
        assert((a + b).last() == b.last());
        assert(split_on(a, sep).last() + b =~= (split_on(a, sep).last() + b0).push(b.last()));
        let s = split_on(a, sep);
        let s0 = split_on(a + b0, sep);
        assert(s0.len() == s.len());
        assert(split_on(a + b, sep) =~= s.update(s.len() - 1, s.last() + b));
    }
}

/// A text free of `sep` splits into itself alone.
pub proof fn lemma_split_plain(b: Seq<char>, sep: char)
    requires
        !b.contains(sep),
    ensures
        split_on(b, sep) == seq![b],
{
    lemma_split_append_plain(Seq::<char>::empty(), b, sep);
    assert(Seq::<char>::empty() + b =~= b);
    assert(seq![Seq::<char>::empty()].update(0, Seq::<char>::empty() + b) =~= seq![b]);
}

/// Splitting undoes joining, when no piece holds the separator and there is
/// at least one piece.
pub proof fn lemma_split_join(parts: Seq<Seq<char>>, sep: char)
    requires
        parts.len() >= 1,
        forall|i: int| 0 <= i < parts.len() ==> !(#[trigger] parts[i]).contains(sep),
    ensures
        split_on(join_with(parts, sep), sep) == parts,
    decreases parts.len(),
{
    if parts.len() == 1 {
        lemma_split_plain(parts[0], sep);
        assert(seq![parts[0]] =~= parts);
    } else {
        let init = parts.drop_last();
        assert forall|i: int| 0 <= i < init.len() implies !(#[trigger] init[i]).contains(sep) by {
            assert(init[i] == parts[i]);
        }
        lemma_split_join(init, sep);
        let j = join_with(init, sep);
        assert(j.push(sep).drop_last() =~= j);
        assert(split_on(j.push(sep), sep) == split_on(j, sep).push(Seq::<char>::empty()));
        assert(!parts.last().contains(sep)) by {
            assert(parts[parts.len() - 1] == parts.last());
        }
        lemma_split_append_plain(j.push(sep), parts.last(), sep);
        assert(Seq::<char>::empty() + parts.last() =~= parts.last());
        assert(init.push(Seq::<char>::empty()).update(init.len() as int, parts.last()) =~= parts);
    }
}

/// Joining the pieces of a split gives back the text, and no piece holds
/// the separator.
pub proof fn lemma_join_split(s: Seq<char>, sep: char)
    ensures
        join_with(split_on(s, sep), sep) == s,
        forall|i: int|
            0 <= i < split_on(s, sep).len() ==> !(#[trigger] split_on(s, sep)[i]).contains(sep),
    decreases s.len(),
{
    if s.len() == 0 {
        assert(split_on(s, sep) =~= seq![Seq::<char>::empty()]);
        assert(join_with(seq![Seq::<char>::empty()], sep) =~= s);
        assert forall|i: int| 0 <= i < split_on(s, sep).len() implies !(#[trigger] split_on(
            s,
            sep,
        )[i]).contains(sep) by {
            assert(split_on(s, sep)[i] =~= Seq::<char>::empty());
        }
    } else {
        let init = s.drop_last();
        let c = s.last();
        lemma_join_split(init, sep);
        lemma_split_nonempty(init, sep);
        let p = split_on(init, sep);
        assert(s =~= init.push(c));
        if c == sep {
            let q = p.push(Seq::<char>::empty());
            assert(split_on(s, sep) == q);
            assert(q.drop_last() =~= p);
            assert(join_with(q, sep) =~= init.push(sep) + Seq::<char>::empty());
            assert forall|i: int| 0 <= i < q.len() implies !(#[trigger] q[i]).contains(sep) by {
                if i < p.len() {
                    assert(q[i] == p[i]);
                } else {
                    assert(q[i] =~= Seq::<char>::empty());
                }
            }
        } else {
            let last = p.last().push(c);
            let q = p.update(p.len() - 1, last);
            assert(split_on(s, sep) == q);
            if p.len() == 1 {
                assert(join_with(q, sep) == q[0]);
                assert(join_with(p, sep) == p[0]);
            } else {
                assert(q.drop_last() =~= p.drop_last());
                assert(join_with(q, sep) == join_with(p.drop_last(), sep).push(sep) + last);
                assert(join_with(p, sep) == join_with(p.drop_last(), sep).push(sep) + p.last());
                assert(join_with(q, sep) =~= join_with(p, sep).push(c));
            }
            assert(!p.last().contains(sep)) by {
                assert(p[p.len() - 1] == p.last());
            }
            assert(!last.contains(sep)) by {
                if last.contains(sep) {
                    let k = choose|k: int| 0 <= k < last.len() && last[k] == sep;
                    if k < p.last().len() {
                        assert(p.last()[k] == sep);
                    }
                }
            }
            assert forall|i: int| 0 <= i < q.len() implies !(#[trigger] q[i]).contains(sep) by {
                if i < p.len() - 1 {
                    assert(q[i] == p[i]);
                }
            }
        }
    }
}

/// A sanitized answer holds no `;`.
pub proof fn lemma_sanitize_plain(a: Seq<char>)
    ensures
        !sanitize(a).contains(';'),
{
    if sanitize(a).contains(';') {
        let k = choose|k: int| 0 <= k < sanitize(a).len() && sanitize(a)[k] == ';';
        assert(sanitize(a)[k] == (if a[k] == ';' { ',' } else { a[k] }));
    }
}

/// Splits `s` at each `;`, as `s.split(";")` does.
pub fn split_answers(s: &str) -> (parts: Vec<String>)
    ensures
        views(parts@) == split_on(s@, ';'),
{
    let n = s.unicode_len();
    let mut parts: Vec<String> = Vec::new();
    let mut start: usize = 0;
    let mut i: usize = 0;
    proof {
        assert(s@.take(0) =~= Seq::<char>::empty());
        assert(views(parts@).push(s@.subrange(0, 0)) =~= seq![Seq::<char>::empty()]);
    }
    while i < n
        invariant
            n == s@.len(),
            start <= i <= n,
            views(parts@).push(s@.subrange(start as int, i as int)) == split_on(
                s@.take(i as int),
                ';',
            ),
        decreases n - i,
    {
        let c = s.get_char(i);
        proof {
            lemma_split_nonempty(s@.take(i as int), ';');
            assert(s@.take(i + 1).drop_last() =~= s@.take(i as int));
            assert(s@.take(i + 1).last() == c);
        }
        if c == ';' {
            let piece = String::from_str(s.substring_char(start, i));
            let ghost before = parts@;
            parts.push(piece);
            proof {
                assert(views(parts@) =~= views(before).push(s@.subrange(start as int, i as int)));
                assert(s@.subrange(i + 1, i + 1) =~= Seq::<char>::empty());
            }
            start = i + 1;
        } else {
            proof {
                assert(s@.subrange(start as int, i + 1) =~= s@.subrange(start as int, i as int).push(
                    c,
                ));
            }
        }
        i = i + 1;
    }
    let last = String::from_str(s.substring_char(start, n));
    let ghost before = parts@;
    parts.push(last);
    proof {
        assert(views(parts@) =~= views(before).push(s@.subrange(start as int, n as int)));
        assert(s@.take(n as int) =~= s@);
    }
    parts
}


/// An answer in its stored form: each `;` replaced by `,`.
pub fn sanitize_answer(a: &str) -> (r: String)
    ensures
        r@ == sanitize(a@),
{
    let n = a.unicode_len();
    let mut r = String::new();
    let mut i: usize = 0;
    proof {
        reveal_strlit(",");
        assert(sanitize(a@.take(0)) =~= Seq::<char>::empty());
    }
    while i < n
        invariant
            n == a@.len(),
            i <= n,
            r@ == sanitize(a@.take(i as int)),
            ","@ == seq![','],
        decreases n - i,
    {
        let c = a.get_char(i);
        if c == ';' {
            r.append(",");
        } else {
            r.append(a.substring_char(i, i + 1));
            assert(a@.subrange(i as int, i + 1) =~= seq![c]);
        }
        assert(sanitize(a@.take(i + 1)) =~= sanitize(a@.take(i as int)).push(
            if c == ';' { ',' } else { c },
        ));
        i = i + 1;
    }
    assert(a@.take(n as int) =~= a@);
    r
}

/// The answers in their stored form: each sanitized, all joined by `;`,
/// as `answers.iter().map(|e| e.replace(";", ",")).collect::<Vec<_>>().join(";")`.
pub fn join_answers(answers: &Vec<String>) -> (r: String)
    ensures
        r@ == joined_answers(views(answers@)),
{
    let n = answers.len();
    let mut r = String::new();
    let mut i: usize = 0;
    let ghost sanitized = views(answers@).map_values(|a: Seq<char>| sanitize(a));
    proof {
        reveal_strlit(";");
    }
    while i < n
        invariant
            n == answers@.len(),
            i <= n,
            sanitized == views(answers@).map_values(|a: Seq<char>| sanitize(a)),
            r@ == join_with(sanitized.take(i as int), ';'),
            ";"@ == seq![';'],
        decreases n - i,
    {
        let piece = sanitize_answer(answers[i].as_str());
        assert(sanitized.take(i + 1).drop_last() =~= sanitized.take(i as int));
        assert(sanitized.take(i + 1).last() == piece@);
        if i > 0 {
            r.append(";");
        }
        r.append(piece.as_str());
        proof {
            if i == 0 {
                assert(r@ =~= sanitized.take(1)[0]);
            }
        }
        i = i + 1;
    }
    assert(sanitized.take(n as int) =~= sanitized);
    r
}

/// The character of one decimal digit, as a text.
fn digit_text(d: u64) -> (r: &'static str)
    requires
        d < 10,
    ensures
        r@ == seq![digit_char(d as int)],
{
    proof {
        reveal_strlit("0");
        reveal_strlit("1");
        reveal_strlit("2");
        reveal_strlit("3");
        reveal_strlit("4");
        reveal_strlit("5");
        reveal_strlit("6");
        reveal_strlit("7");
        reveal_strlit("8");
        reveal_strlit("9");
    }
    if d == 0 {
        "0"
    } else if d == 1 {
        "1"
    } else if d == 2 {
        "2"
    } else if d == 3 {
        "3"
    } else if d == 4 {
        "4"
    } else if d == 5 {
        "5"
    } else if d == 6 {
        "6"
    } else if d == 7 {
        "7"
    } else if d == 8 {
        "8"
    } else {
        "9"
    }
}

/// Appends the decimal digits of `m`.
fn push_digits(out: &mut String, m: u64)
    ensures
        final(out)@ == old(out)@ + digits(m as nat),
    decreases m,
{
    if m >= 10 {
        push_digits(out, m / 10);
        out.append(digit_text(m % 10));
        assert(digits(m as nat) == digits((m / 10) as nat).push(digit_char((m % 10) as int)));
    } else {
        out.append(digit_text(m));
    }
}

/// The decimal rendering of `n`, as `n.to_string()` gives it.
pub fn decimal_text(n: i64) -> (r: String)
    ensures
        r@ == decimal(n as int),
{
    let mut r = String::new();
    if n < 0 {
        proof {
            reveal_strlit("-");
        }
        r.append("-");
        let wide: i128 = n as i128;
        let magnitude: u64 = (0 - wide) as u64;
        push_digits(&mut r, magnitude);
    } else {
        push_digits(&mut r, n as u64);
    }
    r
}

} // verus!
